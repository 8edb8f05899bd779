//! The funder ledger: how much each account has deposited.
//!
//! Accounts are identified by `near_sdk`'s validated account id, an opaque
//! outside type.  What the ledger's logic reads of an account id is the
//! identifier string it carries, named by the uninterpreted [`account_str`]
//! and extracted by the one trusted wrapper below; the ledger itself is a
//! verified in-crate collection keyed by that string, so every claim about
//! its contents is proved over code the verifier reads.

use vstd::prelude::*;

use near_sdk::AccountId;

use crate::strmap::empty_map;
use crate::strmap::StrMap;

verus! {

#[verifier::external_type_specification]
#[verifier::external_body]
pub struct ExAccountId(AccountId);

/// The identifier string an account id carries.  Account ids are equal
/// exactly when these strings are, so the ledger is keyed by it.
pub uninterp spec fn account_str(a: AccountId) -> Seq<char>;

/// Relies on `near_sdk::AccountId::as_str` (through `AccountIdRef`): an
/// account id wraps exactly its identifier string, a function of the value
/// alone.
#[verifier::external_body]
fn account_id_string(a: &AccountId) -> (r: String)
    ensures
        r@ == account_str(*a),
{
    a.as_str().to_string()
}

/// The empty ledger's contents.
pub open spec fn empty_funders() -> Map<Seq<char>, u128> {
    empty_map::<u128>()
}

/// The funder ledger: the deposited balance of each account, keyed by the
/// account's identifier string.
pub struct FunderLedger {
    entries: StrMap<u128>,
}

impl View for FunderLedger {
    type V = Map<Seq<char>, u128>;

    closed spec fn view(&self) -> Map<Seq<char>, u128> {
        self.entries@
    }
}

impl FunderLedger {
    /// Well-formedness: each account is bound to at most one balance.
    pub closed spec fn wf(self) -> bool {
        self.entries.wf()
    }

    /// An empty ledger.
    pub fn new() -> (r: FunderLedger)
        ensures
            r.wf(),
            r@ == empty_funders(),
    {
        FunderLedger { entries: StrMap::new() }
    }

    /// The balance stored for the account, if any.
    pub fn get<'a>(&'a self, k: &AccountId) -> (r: Option<&'a u128>)
        requires
            self.wf(),
        ensures
            match r {
                Some(b) => self@.contains_key(account_str(*k)) && *b == self@[account_str(*k)],
                None => !self@.contains_key(account_str(*k)),
            },
    {
        let key = account_id_string(k);
        self.entries.get(&key)
    }

    /// Binds the account to the balance, replacing any previous binding of
    /// the same account and leaving every other entry untouched.
    pub fn insert(&mut self, k: AccountId, v: u128)
        requires
            old(self).wf(),
        ensures
            final(self).wf(),
            final(self)@ == old(self)@.insert(account_str(k), v),
    {
        let key = account_id_string(&k);
        self.entries.insert(key, v);
    }
}

} // verus!
