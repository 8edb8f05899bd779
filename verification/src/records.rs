//! The per-key record collection: versioned balance records, keyed by an
//! opaque string identifier unique per record.

use vstd::prelude::*;

use crate::balances::VersionedBalances;
use crate::strmap::empty_map;
use crate::strmap::StrMap;

verus! {

/// The record collection: string keys, each bound to at most one stored
/// record.
pub type RecordMap = StrMap<VersionedBalances>;

/// The empty record collection's contents.
pub open spec fn empty_records() -> Map<Seq<char>, VersionedBalances> {
    empty_map::<VersionedBalances>()
}

} // verus!
