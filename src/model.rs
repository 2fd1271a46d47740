use vstd::prelude::*;

verus! {

/// Connection state of a monitored database.
///
/// `Connecting` is transient: it is set before every probe. `Connected` and
/// `Disconnected` are the two stable outcomes of a probe.
#[derive(Clone, Copy, Debug, PartialEq, Eq, Structural)]
pub enum DbStatus {
    Connecting,
    Connected,
    Disconnected,
}

/// The stored name of a status.
pub open spec fn status_text_of(s: DbStatus) -> Seq<char> {
    match s {
        DbStatus::Connecting => "connecting"@,
        DbStatus::Connected => "connected"@,
        DbStatus::Disconnected => "disconnected"@,
    }
}

impl DbStatus {
    /// The stored name of this status.
    pub fn as_text(&self) -> (r: String)
        ensures
            r@ == status_text_of(*self),
    {
        match self {
            DbStatus::Connecting => String::from_str("connecting"),
            DbStatus::Connected => String::from_str("connected"),
            DbStatus::Disconnected => String::from_str("disconnected"),
        }
    }

    /// The status stored under `text`, if any.
    pub fn parse(text: &String) -> (r: Option<DbStatus>)
        ensures
            r matches Some(s) ==> status_text_of(s) == text@,
            r is None ==> forall|s: DbStatus| status_text_of(s) != text@,
    {
        let connecting = String::from_str("connecting");
        let connected = String::from_str("connected");
        let disconnected = String::from_str("disconnected");
        if *text == connecting {
            Some(DbStatus::Connecting)
        } else if *text == connected {
            Some(DbStatus::Connected)
        } else if *text == disconnected {
            Some(DbStatus::Disconnected)
        } else {
            proof {
                assert forall|s: DbStatus| status_text_of(s) != text@ by {
                    match s {
                        DbStatus::Connecting => {},
                        DbStatus::Connected => {},
                        DbStatus::Disconnected => {},
                    }
                }
            }
            None
        }
    }
}

/// One monitored external database.
pub struct DatabaseRecord {
    /// Opaque unique identifier (the document store's id, in hex).
    pub id: String,
    /// The database's name on the remote server.
    pub name: String,
    /// User-facing label.
    pub custom_name: String,
    pub connection_string: String,
    /// Empty when none was given; the dump then authenticates against `admin`.
    pub authentication_database: String,
    pub status: DbStatus,
    /// Collection names seen by the last successful probe.
    pub collections: Vec<String>,
    /// Diagnostic of the last probe, empty on success.
    pub message: String,
    /// Timestamp of the most recent snapshot, if any.
    pub last_save: Option<i64>,
}

/// One completed backup of a database.
pub struct Snapshot {
    /// Opaque unique identifier (the document store's id, in hex).
    pub id: String,
    pub database_id: String,
    /// Milliseconds since the epoch at backup start; also the directory name.
    pub timestamp: i64,
    /// Taken on a user's request rather than by the scheduler.
    pub manual: bool,
}

/// A snapshot as it is inserted into the store, before it has an id.
pub struct NewSnapshot {
    pub database_id: String,
    pub timestamp: i64,
    pub manual: bool,
}

/// Copies a list of names element by element.
pub fn copy_names(v: &Vec<String>) -> (r: Vec<String>)
    ensures
        r@ == v@,
{
    let mut r: Vec<String> = Vec::new();
    let mut i: usize = 0;
    while i < v.len()
        invariant
            i <= v.len(),
            r@ == v@.subrange(0, i as int),
        decreases v.len() - i,
    {
        r.push(v[i].clone());
        i = i + 1;
    }
    assert(r@ =~= v@);
    r
}

impl Snapshot {
    /// A copy of this snapshot.
    pub fn duplicate(&self) -> (r: Snapshot)
        ensures
            r == *self,
    {
        Snapshot {
            id: self.id.clone(),
            database_id: self.database_id.clone(),
            timestamp: self.timestamp,
            manual: self.manual,
        }
    }
}

/// `t` is the newest timestamp among the snapshots of database `db_id`.
pub open spec fn is_last_save(saves: Seq<Snapshot>, db_id: Seq<char>, t: int) -> bool {
    &&& exists|i: int| 0 <= i < saves.len() && saves[i].database_id@ == db_id && saves[i].timestamp == t
    &&& forall|i: int| 0 <= i < saves.len() && (#[trigger] saves[i]).database_id@ == db_id ==> saves[i].timestamp <= t
}

/// The timestamp of the most recent snapshot of database `db_id`, if it has any.
pub fn last_save_of(saves: &Vec<Snapshot>, db_id: &String) -> (r: Option<i64>)
    ensures
        r is None <==> forall|i: int| 0 <= i < saves@.len() ==> (#[trigger] saves@[i]).database_id@ != db_id@,
        r matches Some(t) ==> is_last_save(saves@, db_id@, t as int),
{
    let mut best: Option<i64> = None;
    let mut i: usize = 0;
    while i < saves.len()
        invariant
            i <= saves.len(),
            best is None <==> forall|j: int| 0 <= j < i ==> (#[trigger] saves@[j]).database_id@ != db_id@,
            best matches Some(t) ==> is_last_save(saves@.subrange(0, i as int), db_id@, t as int),
        decreases saves.len() - i,
    {
        let ghost prefix = saves@.subrange(0, i as int + 1);
        assert(forall|j: int| 0 <= j < i ==> saves@.subrange(0, i as int)[j] == prefix[j]);
        if saves[i].database_id == *db_id {
            let t = saves[i].timestamp;
            match best {
                Some(b) => {
                    if t > b {
                        best = Some(t);
                    }
                },
                None => {
                    best = Some(t);
                },
            }
        }
        proof {
            if let Some(t) = best {
                let old_prefix = saves@.subrange(0, i as int);
                assert(prefix[i as int] == saves@[i as int]);
                assert forall|j: int| 0 <= j < prefix.len() && (#[trigger] prefix[j]).database_id@ == db_id@
                    implies prefix[j].timestamp <= t by {
                    if j < i {
                        assert(old_prefix[j] == prefix[j]);
                    }
                }
                if saves@[i as int].database_id@ == db_id@ && saves@[i as int].timestamp == t {
                    assert(prefix[i as int].timestamp == t);
                } else {
                    let k = choose|k: int| 0 <= k < old_prefix.len() && old_prefix[k].database_id@ == db_id@
                        && old_prefix[k].timestamp == t;
                    assert(prefix[k] == old_prefix[k]);
                }
            }
        }
        i = i + 1;
    }
    assert(saves@.subrange(0, saves.len() as int) =~= saves@);
    best
}

} // verus!
