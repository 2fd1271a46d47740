use vstd::prelude::*;

use crate::model::{copy_names, DatabaseRecord, DbStatus};

verus! {

/// Outcome of one connection probe of a remote database.
pub struct ProbeResult {
    pub reachable: bool,
    /// Collection names of the target database; empty when unreachable.
    pub collections: Vec<String>,
    /// Human-readable diagnostic; empty when reachable.
    pub error: String,
}

/// Whether the target database is among the server's databases.
pub struct CheckDbRes {
    pub success: bool,
    pub message: String,
}

/// What the status recorder reports back after a probe.
pub struct UpdateDbRes {
    pub success: bool,
    pub message: String,
}

/// `name` occurs in `names`.
pub open spec fn has_name(names: Seq<String>, name: Seq<char>) -> bool {
    exists|i: int| 0 <= i < names.len() && (#[trigger] names[i])@ == name
}

/// The diagnostic for a target database that the server does not hold.
pub open spec fn not_found_message(db_name: Seq<char>) -> Seq<char> {
    "Database not found: "@ + db_name
}

/// The diagnostic for a connection string that could not be used.
pub open spec fn connect_failure_message(reason: Seq<char>) -> Seq<char> {
    "Failed to parse connection string: "@ + reason
}

/// Checks that `db_name` is one of the server's `databases`.
pub fn check_db(databases: &Vec<String>, db_name: &String) -> (r: CheckDbRes)
    ensures
        r.success == has_name(databases@, db_name@),
        r.success ==> r.message@ == Seq::<char>::empty(),
        !r.success ==> r.message@ == not_found_message(db_name@),
{
    let mut found = false;
    let mut i: usize = 0;
    while i < databases.len()
        invariant
            i <= databases.len(),
            found == exists|j: int| 0 <= j < i && (#[trigger] databases@[j])@ == db_name@,
        decreases databases.len() - i,
    {
        if databases[i] == *db_name {
            found = true;
        }
        i = i + 1;
    }
    if !found {
        let mut message = String::from_str("Database not found: ");
        message.append(db_name.as_str());
        return CheckDbRes { success: false, message };
    }
    CheckDbRes { success: true, message: String::new() }
}

/// The probe result when no client could be made from the connection string.
pub fn connect_failure(reason: &String) -> (r: ProbeResult)
    ensures
        !r.reachable,
        r.collections@.len() == 0,
        r.error@ == connect_failure_message(reason@),
{
    let mut error = String::from_str("Failed to parse connection string: ");
    error.append(reason.as_str());
    ProbeResult { reachable: false, collections: Vec::new(), error }
}

/// The probe result when a step of the probe failed with `reason`.
pub fn probe_failure(reason: &String) -> (r: ProbeResult)
    ensures
        !r.reachable,
        r.collections@.len() == 0,
        r.error@ == reason@,
{
    ProbeResult { reachable: false, collections: Vec::new(), error: reason.clone() }
}

/// Decides the probe once the server's database names are known: `Ok` when
/// the collections of `db_name` are to be listed next, else the final result.
pub fn probe_databases(databases: &Vec<String>, db_name: &String) -> (r: Result<(), ProbeResult>)
    ensures
        r is Ok <==> has_name(databases@, db_name@),
        r matches Err(p) ==> !p.reachable && p.collections@.len() == 0 && p.error@
            == not_found_message(db_name@),
{
    let check = check_db(databases, db_name);
    if check.success {
        Ok(())
    } else {
        Err(ProbeResult { reachable: false, collections: Vec::new(), error: check.message })
    }
}

/// The probe result once the target database's collections are listed.
pub fn probe_collections(collections: &Vec<String>) -> (r: ProbeResult)
    ensures
        r.reachable,
        r.collections@ == collections@,
        r.error@ == Seq::<char>::empty(),
{
    ProbeResult { reachable: true, collections: copy_names(collections), error: String::new() }
}

/// Marks a record as being probed, before the probe starts.
pub fn begin_probe(rec: &mut DatabaseRecord)
    ensures
        final(rec).status == DbStatus::Connecting,
        final(rec).id == old(rec).id,
        final(rec).name == old(rec).name,
        final(rec).custom_name == old(rec).custom_name,
        final(rec).connection_string == old(rec).connection_string,
        final(rec).authentication_database == old(rec).authentication_database,
        final(rec).collections == old(rec).collections,
        final(rec).message == old(rec).message,
        final(rec).last_save == old(rec).last_save,
{
    rec.status = DbStatus::Connecting;
}

/// `after` is `before` with the outcome of `probe` stored in it.
pub open spec fn records_probe(before: DatabaseRecord, probe: ProbeResult, after: DatabaseRecord) -> bool {
    &&& after.status == (if probe.reachable {
        DbStatus::Connected
    } else {
        DbStatus::Disconnected
    })
    &&& probe.reachable ==> after.collections@ == probe.collections@
    &&& probe.reachable ==> after.message@ == Seq::<char>::empty()
    &&& !probe.reachable ==> after.collections@.len() == 0
    &&& !probe.reachable ==> after.message@ == probe.error@
    &&& after.id == before.id
    &&& after.name == before.name
    &&& after.custom_name == before.custom_name
    &&& after.connection_string == before.connection_string
    &&& after.authentication_database == before.authentication_database
    &&& after.last_save == before.last_save
}

/// Stores the outcome of a probe in the record: `Connected` with the observed
/// collections and no message, or `Disconnected` with no collections and the
/// probe's diagnostic.
pub fn update_db_datas(rec: &mut DatabaseRecord, probe: &ProbeResult) -> (r: UpdateDbRes)
    ensures
        records_probe(*old(rec), *probe, *final(rec)),
        r.success == probe.reachable,
        r.message@ == final(rec).message@,
{
    if probe.reachable {
        rec.status = DbStatus::Connected;
        rec.collections = copy_names(&probe.collections);
        rec.message = String::new();
    } else {
        rec.status = DbStatus::Disconnected;
        rec.collections = Vec::new();
        rec.message = probe.error.clone();
    }
    UpdateDbRes { success: probe.reachable, message: rec.message.clone() }
}

/// A record that a probe left `Connected` reflects that probe: the probe
/// succeeded and the record's collections are the ones it observed.
pub proof fn lemma_connected_reflects_probe(
    before: DatabaseRecord,
    probe: ProbeResult,
    after: DatabaseRecord,
)
    requires
        records_probe(before, probe, after),
        after.status == DbStatus::Connected,
    ensures
        probe.reachable,
        after.collections@ == probe.collections@,
        after.message@ == Seq::<char>::empty(),
{
}

} // verus!
