//! Lazy, per-record schema migration for a small deposit-tracking store.
//!
//! Records and the aggregate root are tagged unions over their historical
//! shapes.  Readers and writers always operate on the latest logical shape;
//! a stored value upgrades itself at most once, on first touch, and the
//! upgraded form is written back.  The root upgrades only on mutating
//! operations; reads never pay the migration cost.

use vstd::prelude::*;

pub mod balances;
pub mod contracts;
pub mod funders;
pub mod records;
pub mod strmap;

pub use balances::Balances;
pub use balances::BalancesV1;
pub use balances::VersionedBalances;
pub use contracts::Contract;
pub use contracts::ContractV0;
pub use funders::FunderLedger;
pub use records::RecordMap;

use near_sdk::AccountId;

use crate::funders::account_str;

verus! {

/// The running balance the ledger attributes to `k`: zero while absent.
pub open spec fn balance_in(m: Map<Seq<char>, u128>, k: Seq<char>) -> u128 {
    if m.contains_key(k) {
        m[k]
    } else {
        0
    }
}

/// The ledger's contents after one deposit of `amount` to `k`.
pub open spec fn deposit_effect(m: Map<Seq<char>, u128>, k: Seq<char>, amount: u128) -> Map<
    Seq<char>,
    u128,
> {
    m.insert(k, ((balance_in(m, k) + amount) as u128))
}

/// Why a record lookup can fail.
#[derive(Clone, Copy, Debug, PartialEq, Eq, Structural)]
pub enum RecordError {
    /// No record is stored under the requested key.
    KeyNotFound,
}

/// The oldest-shape seed a newly registered record starts from.
pub open spec fn seed_record() -> VersionedBalances {
    VersionedBalances::V0(Balances { deposited: 1, total: 1 })
}

/// The aggregate root as stored: exactly one of its historical shapes,
/// tagged with the generation it was written under.
pub enum VersionedContract {
    V0(ContractV0),
    V1(Contract),
}

impl VersionedContract {
    /// True iff the stored tag is the current (latest) one.
    pub open spec fn is_current(self) -> bool {
        self is V1
    }

    /// The funder ledger's contents, in whichever shape is stored.
    pub open spec fn funders_view(self) -> Map<Seq<char>, u128> {
        match self {
            VersionedContract::V0(c) => c.funders@,
            VersionedContract::V1(c) => c.funders@,
        }
    }

    /// The record collection's contents, in whichever shape is stored.
    pub open spec fn records_view(self) -> Map<Seq<char>, VersionedBalances> {
        match self {
            VersionedContract::V0(c) => c.hashes@,
            VersionedContract::V1(c) => c.hashes@,
        }
    }

    /// The observable counter: zero until the root reaches the current
    /// shape, the stored counter afterwards.
    pub open spec fn nonce_view(self) -> u64 {
        match self {
            VersionedContract::V0(_) => 0,
            VersionedContract::V1(c) => c.nonce,
        }
    }

    /// Validity: each collection binds any key at most once.
    pub open spec fn inv(self) -> bool {
        match self {
            VersionedContract::V0(c) => c.funders.wf() && c.hashes.wf(),
            VersionedContract::V1(c) => c.funders.wf() && c.hashes.wf(),
        }
    }

    /// True iff the stored tag is not the current one.  No side effect.
    pub fn need_upgrade(&self) -> (r: bool)
        ensures
            r == !self.is_current(),
    {
        match self {
            VersionedContract::V0(_) => true,
            VersionedContract::V1(_) => false,
        }
    }

    /// Shared view of the funder ledger in whichever shape is stored,
    /// without forcing a root upgrade.
    fn funders(&self) -> (r: &FunderLedger)
        ensures
            r@ == self.funders_view(),
            self.inv() ==> r.wf(),
    {
        match self {
            VersionedContract::V0(c) => &c.funders,
            VersionedContract::V1(c) => &c.funders,
        }
    }

    /// Shared view of the record collection in whichever shape is stored,
    /// without forcing a root upgrade.
    fn hashes(&self) -> (r: &RecordMap)
        ensures
            r@ == self.records_view(),
            self.inv() ==> r.wf(),
    {
        match self {
            VersionedContract::V0(c) => &c.hashes,
            VersionedContract::V1(c) => &c.hashes,
        }
    }

    /// Consumes the root and yields its current shape: the stored value if
    /// already current, else the upgrade, which carries both collections
    /// over by move and starts the counter at zero.
    pub fn into_current(self) -> (r: Contract)
        ensures
            self.is_current() ==> self == VersionedContract::V1(r),
            r.funders@ == self.funders_view(),
            r.hashes@ == self.records_view(),
            r.nonce == self.nonce_view(),
            self.inv() ==> r.funders.wf() && r.hashes.wf(),
    {
        match self {
            VersionedContract::V0(c) => Contract { funders: c.funders, nonce: 0, hashes: c.hashes },
            VersionedContract::V1(c) => c,
        }
    }

    /// Attributes `amount` to `account_id`'s running balance (created at
    /// zero if absent) inside the current-shape root — upgrading the root in
    /// place first if it is stale — then increments the counter.
    pub fn deposit(&mut self, account_id: AccountId, amount: u128)
        requires
            old(self).inv(),
            balance_in(old(self).funders_view(), account_str(account_id)) + amount <= u128::MAX,
            old(self).nonce_view() < u64::MAX,
        ensures
            final(self).inv(),
            final(self).is_current(),
            final(self).nonce_view() == old(self).nonce_view() + 1,
            final(self).records_view() == old(self).records_view(),
            final(self).funders_view() == deposit_effect(
                old(self).funders_view(),
                account_str(account_id),
                amount,
            ),
    {
        let mut tmp = VersionedContract::default();
        core::mem::swap(self, &mut tmp);
        let mut contract = tmp.into_current();
        let prev: u128 = match contract.funders.get(&account_id) {
            Some(b) => *b,
            None => 0,
        };
        contract.funders.insert(account_id, prev + amount);
        contract.nonce = contract.nonce + 1;
        *self = VersionedContract::V1(contract);
    }

    /// The observable counter.  Never mutates: a stale-tagged root stays
    /// stale and reads zero.
    pub fn get_nonce(&self) -> (r: u64)
        ensures
            r == self.nonce_view(),
    {
        match self {
            VersionedContract::V0(_) => 0,
            VersionedContract::V1(c) => c.nonce,
        }
    }

    /// The balance `account_id` has deposited, if any, read through the
    /// non-upgrading accessor.
    pub fn get_deposit<'a>(&'a self, account_id: &AccountId) -> (r: Option<&'a u128>)
        requires
            self.inv(),
        ensures
            match r {
                Some(b) => self.funders_view().contains_key(account_str(*account_id)) && *b
                    == self.funders_view()[account_str(*account_id)],
                None => !self.funders_view().contains_key(account_str(*account_id)),
            },
    {
        self.funders().get(account_id)
    }

    /// Registers a brand-new record under `k`, seeded in the oldest shape.
    /// Only valid while the root itself is still oldest-tagged; calling it
    /// on an upgraded root is a call-sequencing error, so that case is ruled
    /// out up front.
    pub fn add_hash(&mut self, k: String)
        requires
            old(self).inv(),
            !old(self).is_current(),
        ensures
            final(self).inv(),
            !final(self).is_current(),
            final(self).records_view() == old(self).records_view().insert(k@, seed_record()),
            final(self).funders_view() == old(self).funders_view(),
            final(self).nonce_view() == old(self).nonce_view(),
    {
        match self {
            VersionedContract::V0(c) => {
                c.hashes.insert(k, VersionedBalances::V0(Balances { deposited: 1, total: 1 }));
            },
            VersionedContract::V1(_) => {
                proof {
                    assert(false);
                }
            },
        }
    }

    /// Looks up `k`; upgrades the record to the latest shape if it is stale,
    /// writes the upgraded form back — so the upgrade cost is paid at most
    /// once per record — and returns the latest-shape value.  A read that
    /// finds an already-current record neither re-upgrades nor re-writes.
    pub fn get_balance(&mut self, k: String) -> (r: Result<BalancesV1, RecordError>)
        requires
            old(self).inv(),
        ensures
            final(self).inv(),
            final(self).funders_view() == old(self).funders_view(),
            final(self).nonce_view() == old(self).nonce_view(),
            final(self).is_current() == old(self).is_current(),
            match r {
                Ok(bal) => {
                    &&& old(self).records_view().contains_key(k@)
                    &&& bal == old(self).records_view()[k@].latest_spec()
                    &&& final(self).records_view() == old(self).records_view().insert(
                        k@,
                        old(self).records_view()[k@].upgrade_spec(),
                    )
                    &&& old(self).records_view()[k@] is V1 ==> *final(self) == *old(self)
                },
                Err(e) => {
                    &&& e == RecordError::KeyNotFound
                    &&& !old(self).records_view().contains_key(k@)
                    &&& *final(self) == *old(self)
                },
            },
    {
        let found: Option<VersionedBalances> = match self.hashes().get(&k) {
            Some(v) => Some(*v),
            None => None,
        };
        match found {
            None => Err(RecordError::KeyNotFound),
            Some(versioned) => {
                if versioned.need_upgrade() {
                    let upgraded = versioned.upgrade();
                    match self {
                        VersionedContract::V0(c) => {
                            c.hashes.insert(k, upgraded);
                        },
                        VersionedContract::V1(c) => {
                            c.hashes.insert(k, upgraded);
                        },
                    }
                    Ok(upgraded.get_balance())
                } else {
                    proof {
                        assert(old(self).records_view().insert(
                            k@,
                            old(self).records_view()[k@].upgrade_spec(),
                        ) =~= old(self).records_view());
                    }
                    Ok(versioned.get_balance())
                }
            },
        }
    }
}

impl Default for VersionedContract {
    /// A brand-new root: current shape, empty collections, counter zero.
    fn default() -> (r: Self)
        ensures
            r.inv(),
            r.is_current(),
            r.funders_view() == crate::funders::empty_funders(),
            r.records_view() == crate::records::empty_records(),
            r.nonce_view() == 0,
    {
        VersionedContract::V1(Contract::default())
    }
}

/// The ledger's contents after the deposits of `ds`, applied oldest first;
/// each element carries the account identifier string and the amount.
pub open spec fn deposits_effect(m: Map<Seq<char>, u128>, ds: Seq<(Seq<char>, u128)>) -> Map<
    Seq<char>,
    u128,
>
    decreases ds.len(),
{
    if ds.len() == 0 {
        m
    } else {
        deposit_effect(deposits_effect(m, ds.drop_last()), ds.last().0, ds.last().1)
    }
}

/// The total amount the deposits of `ds` attribute to `k`.
pub open spec fn total_for(ds: Seq<(Seq<char>, u128)>, k: Seq<char>) -> int
    decreases ds.len(),
{
    if ds.len() == 0 {
        0
    } else {
        total_for(ds.drop_last(), k) + if ds.last().0 == k {
            ds.last().1 as int
        } else {
            0int
        }
    }
}

/// Deposits attribute only non-negative amounts, so the total for a key
/// never shrinks as deposits accrue.
pub proof fn lemma_total_for_nonneg(ds: Seq<(Seq<char>, u128)>, k: Seq<char>)
    ensures
        total_for(ds, k) >= 0,
    decreases ds.len(),
{
    if ds.len() != 0 {
        lemma_total_for_nonneg(ds.drop_last(), k)
    }
}

/// Law: funder accumulation.  Depositing a series of amounts — in any
/// interleaving with other accounts' deposits — leaves each account with
/// its starting balance plus the sum of its own amounts.
pub proof fn lemma_funder_accumulation(
    m: Map<Seq<char>, u128>,
    ds: Seq<(Seq<char>, u128)>,
    k: Seq<char>,
)
    requires
        balance_in(m, k) + total_for(ds, k) <= u128::MAX,
    ensures
        balance_in(deposits_effect(m, ds), k) == balance_in(m, k) + total_for(ds, k),
    decreases ds.len(),
{
    if ds.len() != 0 {
        let dl = ds.drop_last();
        lemma_total_for_nonneg(dl, k);
        lemma_funder_accumulation(m, dl, k);
    }
}

/// Law: a stale-tagged root always reads counter zero; only a mutation can
/// retag it.  The second half is what `deposit` ensures: the root comes out
/// current-tagged with the counter advanced by one, so the first deposit on
/// a stale root yields counter one.
pub proof fn lemma_stale_root_nonce_zero(c: VersionedContract)
    requires
        !c.is_current(),
    ensures
        c.nonce_view() == 0,
{
}

/// Law: the first mutation both retags and counts.  Any transition that
/// meets `deposit`'s contract from a stale-tagged root — which always reads
/// counter zero — leaves a current-tagged root whose counter reads one.
pub proof fn lemma_first_deposit_counts_once(pre: VersionedContract, post: VersionedContract)
    requires
        !pre.is_current(),
        post.is_current(),
        post.nonce_view() == pre.nonce_view() + 1,
    ensures
        post.nonce_view() == 1,
{
    lemma_stale_root_nonce_zero(pre);
}

/// Law: the upgrade cost is paid at most once per record.  After a record is
/// upgraded and written back, the stored value is tagged latest, observable
/// fields are unchanged, and a further upgrade-and-write-back leaves the
/// collection exactly as it is.
pub proof fn lemma_upgrade_write_back_at_most_once(
    recs: Map<Seq<char>, VersionedBalances>,
    k: Seq<char>,
)
    requires
        recs.contains_key(k),
    ensures
        ({
            let once = recs.insert(k, recs[k].upgrade_spec());
            &&& once[k] is V1
            &&& once[k].latest_spec() == recs[k].latest_spec()
            &&& once.insert(k, once[k].upgrade_spec()) == once
        }),
{
    let once = recs.insert(k, recs[k].upgrade_spec());
    assert(once.insert(k, once[k].upgrade_spec()) =~= once);
}

} // verus!
