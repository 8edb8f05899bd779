//! The versioned entity: one balance record across its schema generations,
//! with a forward-only upgrade step between adjacent generations.

use vstd::prelude::*;

verus! {

/// Oldest stored shape of a balance record.
#[derive(Clone, Copy, Debug, PartialEq, Eq, Structural)]
pub struct Balances {
    /// Amount the address deposited.
    pub deposited: u128,
    /// Amount deposited plus the earned shares.
    pub total: u128,
}

/// Latest shape of a balance record; adds `earned` to the oldest shape.
#[derive(Clone, Copy, Debug, PartialEq, Eq, Structural)]
pub struct BalancesV1 {
    /// Amount the address deposited.
    pub deposited: u128,
    /// Amount deposited plus the earned shares.
    pub total: u128,
    /// Earnings attributed since the field was introduced.
    pub earned: u128,
}

/// A balance record as stored: exactly one of the historical shapes,
/// tagged with the generation it was written under.
#[derive(Clone, Copy, Debug, PartialEq, Eq, Structural)]
pub enum VersionedBalances {
    V0(Balances),
    V1(BalancesV1),
}

impl VersionedBalances {
    /// The latest-shape projection of a record: carried-over fields verbatim,
    /// fields the stored generation predates at their documented defaults.
    pub open spec fn latest_spec(self) -> BalancesV1 {
        match self {
            VersionedBalances::V0(bal) => BalancesV1 {
                deposited: bal.deposited,
                total: bal.total,
                earned: 0,
            },
            VersionedBalances::V1(bal) => bal,
        }
    }

    /// What one upgrade step yields.  From the latest generation this is an
    /// equivalent copy, so upgrading is idempotent on observable fields.
    pub open spec fn upgrade_spec(self) -> VersionedBalances {
        VersionedBalances::V1(self.latest_spec())
    }

    /// How many generations separate the stored tag from the latest one.
    pub open spec fn generations_behind(self) -> nat {
        match self {
            VersionedBalances::V0(_) => 1nat,
            VersionedBalances::V1(_) => 0nat,
        }
    }

    /// Upgrade to the immediate next generation: old fields copied verbatim,
    /// new fields set to their defaults.  On the latest generation this
    /// returns an equivalent copy.
    pub fn upgrade(&self) -> (r: VersionedBalances)
        ensures
            r == self.upgrade_spec(),
    {
        match self {
            VersionedBalances::V0(bal) => {
                let new_bal: BalancesV1 = BalancesV1 {
                    deposited: bal.deposited,
                    total: bal.total,
                    earned: 0,
                };
                VersionedBalances::V1(new_bal)
            },
            VersionedBalances::V1(bal) => VersionedBalances::V1(*bal),
        }
    }

    /// True iff the stored tag is not the latest known tag.
    pub fn need_upgrade(&self) -> (r: bool)
        ensures
            r == (self.generations_behind() != 0),
    {
        match self {
            VersionedBalances::V0(_) => true,
            VersionedBalances::V1(_) => false,
        }
    }

    /// Consumes the record, upgrading one generation at a time until the
    /// latest tag is reached, and projects to the latest shape.
    pub fn get_balance(self) -> (r: BalancesV1)
        ensures
            r == self.latest_spec(),
    {
        let mut v = self;
        while v.need_upgrade()
            invariant
                v.latest_spec() == self.latest_spec(),
            decreases v.generations_behind(),
        {
            v = v.upgrade();
        }
        match v {
            VersionedBalances::V1(bal) => bal,
            VersionedBalances::V0(_) => vstd::pervasive::unreached(),
        }
    }
}

/// Law: upgrading is idempotent.  Upgrading an already-upgraded record
/// changes none of its observable (latest-shape) fields.
pub proof fn lemma_upgrade_idempotent(v: VersionedBalances)
    ensures
        v.upgrade_spec().upgrade_spec().latest_spec() == v.upgrade_spec().latest_spec(),
{
}

/// Law: upgrading an oldest-shape record preserves `deposited` and `total`
/// verbatim and seeds `earned` at zero.
pub proof fn lemma_upgrade_preserves_fields(bal: Balances)
    ensures
        VersionedBalances::V0(bal).upgrade_spec() == VersionedBalances::V1(
            BalancesV1 { deposited: bal.deposited, total: bal.total, earned: 0 },
        ),
{
}

} // verus!
