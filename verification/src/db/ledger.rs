//! Records of the durable event ledger.
use vstd::prelude::*;

verus! {

/// One event stored in the ledger.
#[derive(Debug, Clone)]
pub struct StoredEvent {
    pub event_id: String,
    pub message_type: String,
    pub payload_json: String,
    pub seq: u32,
}

/// Handle on the ledger database at a path.
#[derive(Debug)]
pub struct Ledger {
    pub db_path: String,
}

impl Ledger {
    pub fn new(db_path: &str) -> (r: Self)
        ensures
            r.db_path@ == db_path@,
    {
        Ledger { db_path: String::from_str(db_path) }
    }
}

} // verus!
