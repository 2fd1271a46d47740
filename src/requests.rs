use vstd::prelude::*;

use crate::model::{DatabaseRecord, DbStatus};

verus! {

/// Registers a database to monitor.
pub struct AddDbInput {
    pub token: String,
    pub name: String,
    pub connection_string: String,
}

/// Asks for a fresh probe of a database.
pub struct CheckDbConnectionInput {
    pub token: String,
    pub db_id: String,
}

/// Removes a monitored database.
pub struct DeleteDbInput {
    pub token: String,
    pub db_id: String,
}

/// Removes one snapshot and its directory.
pub struct DeleteSaveInput {
    pub token: String,
    pub save_id: String,
}

/// Asks for the archive of one snapshot.
pub struct DownloadSaveQuery {
    pub save_id: String,
    pub token: String,
}

/// Changes how a monitored database is reached and labelled.
pub struct EditDbInput {
    pub token: String,
    pub db_id: String,
    pub name: String,
    pub custom_name: String,
    pub connection_string: String,
}

/// Lists the snapshots of one database.
pub struct GetDbSavesInput {
    pub token: String,
    pub db_id: String,
}

/// Asks for a manual backup of one database.
pub struct SaveDbInput {
    pub token: String,
    pub db_id: String,
}

/// The record of a newly registered database with the store's id `id`: its
/// label is its name, it is `Connecting` until its first probe, and it has no
/// collections, message or snapshot yet.
pub fn new_database(input: &AddDbInput, id: String) -> (r: DatabaseRecord)
    ensures
        r.id == id,
        r.name == input.name,
        r.custom_name == input.name,
        r.connection_string == input.connection_string,
        r.authentication_database@ == Seq::<char>::empty(),
        r.status == DbStatus::Connecting,
        r.collections@.len() == 0,
        r.message@ == Seq::<char>::empty(),
        r.last_save is None,
{
    DatabaseRecord {
        id,
        name: input.name.clone(),
        custom_name: input.name.clone(),
        connection_string: input.connection_string.clone(),
        authentication_database: String::new(),
        status: DbStatus::Connecting,
        collections: Vec::new(),
        message: String::new(),
        last_save: None,
    }
}

/// Applies an edit to a record: name, label and connection string change,
/// everything else stays.
pub fn edit_db(rec: &mut DatabaseRecord, input: &EditDbInput)
    ensures
        final(rec).name == input.name,
        final(rec).custom_name == input.custom_name,
        final(rec).connection_string == input.connection_string,
        final(rec).id == old(rec).id,
        final(rec).authentication_database == old(rec).authentication_database,
        final(rec).status == old(rec).status,
        final(rec).collections == old(rec).collections,
        final(rec).message == old(rec).message,
        final(rec).last_save == old(rec).last_save,
{
    rec.name = input.name.clone();
    rec.custom_name = input.custom_name.clone();
    rec.connection_string = input.connection_string.clone();
}

} // verus!
