//! The aggregate root across its schema generations: the funder ledger and
//! the record collection, with the sequence counter the current generation
//! introduced.

use vstd::prelude::*;

use crate::funders::empty_funders;
use crate::funders::FunderLedger;
use crate::records::empty_records;
use crate::records::RecordMap;

verus! {

/// Oldest shape of the aggregate root.
pub struct ContractV0 {
    /// How much each account has deposited.
    pub funders: FunderLedger,
    /// The per-key balance records.
    pub hashes: RecordMap,
}

/// Current shape of the aggregate root; adds `nonce` to the oldest shape.
pub struct Contract {
    /// How much each account has deposited.
    pub funders: FunderLedger,
    /// Counts successful mutating operations; starts at zero when the root
    /// reaches this shape.
    pub nonce: u64,
    /// The per-key balance records.
    pub hashes: RecordMap,
}

impl Default for ContractV0 {
    /// An empty oldest-shape root.
    fn default() -> (r: Self)
        ensures
            r.funders@ == empty_funders(),
            r.funders.wf(),
            r.hashes@ == empty_records(),
            r.hashes.wf(),
    {
        Self { funders: FunderLedger::new(), hashes: RecordMap::new() }
    }
}

impl Default for Contract {
    /// An empty current-shape root with the counter at zero.
    fn default() -> (r: Self)
        ensures
            r.funders@ == empty_funders(),
            r.funders.wf(),
            r.nonce == 0,
            r.hashes@ == empty_records(),
            r.hashes.wf(),
    {
        Self { funders: FunderLedger::new(), nonce: 0, hashes: RecordMap::new() }
    }
}

} // verus!
