//! The account ledger: one record per principal, found by the principal's
//! identifier.

use vstd::prelude::*;
use crate::account::UpgradableAccount;

verus! {

/// One record of the ledger as the ledger holds it.
#[derive(Debug)]
pub struct LedgerEntry {
    /// The principal that the record belongs to.
    pub account_id: String,
    /// The record.
    pub account: UpgradableAccount,
}

/// Whether some record of `m` belongs to `id`.
pub open spec fn has_id(m: Seq<(Seq<char>, UpgradableAccount)>, id: Seq<char>) -> bool {
    exists|i: int| 0 <= i < m.len() && (#[trigger] m[i]).0 == id
}

/// The place of the record of `id` in `m`, where there is one.
pub open spec fn position(m: Seq<(Seq<char>, UpgradableAccount)>, id: Seq<char>) -> int {
    choose|i: int| 0 <= i < m.len() && (#[trigger] m[i]).0 == id
}

/// No two records of `m` belong to the same principal.
pub open spec fn distinct_ids(m: Seq<(Seq<char>, UpgradableAccount)>) -> bool {
    forall|i: int, j: int|
        0 <= i < j < m.len() ==> (#[trigger] m[i]).0 != (#[trigger] m[j]).0
}

/// The record of `id` in `m`, if there is one.
pub open spec fn lookup(m: Seq<(Seq<char>, UpgradableAccount)>, id: Seq<char>) -> Option<
    UpgradableAccount,
> {
    if has_id(m, id) {
        Some(m[position(m, id)].1)
    } else {
        None
    }
}

/// `m` with the record of `id` set to `account`: replaced in place where `id`
/// has one, added at the end where it has none.
pub open spec fn inserted(
    m: Seq<(Seq<char>, UpgradableAccount)>,
    id: Seq<char>,
    account: UpgradableAccount,
) -> Seq<(Seq<char>, UpgradableAccount)> {
    if has_id(m, id) {
        m.update(position(m, id), (id, account))
    } else {
        m.push((id, account))
    }
}

/// The sum of the staked principal of all records of `m`.
pub open spec fn total_staked(m: Seq<(Seq<char>, UpgradableAccount)>) -> int
    decreases m.len(),
{
    if m.len() == 0 {
        0
    } else {
        total_staked(m.drop_last()) + m.last().1.account().stake_balance
    }
}

/// One for a record that holds staked principal, zero for one that holds none.
pub open spec fn staking(account: UpgradableAccount) -> int {
    if account.account().stake_balance > 0 {
        1
    } else {
        0
    }
}

/// The number of records of `m` that hold staked principal.
pub open spec fn staker_count(m: Seq<(Seq<char>, UpgradableAccount)>) -> int
    decreases m.len(),
{
    if m.len() == 0 {
        0
    } else {
        staker_count(m.drop_last()) + staking(m.last().1)
    }
}

/// The principal that `id` has staked in `m`; zero where it has no record.
pub open spec fn staked_by(m: Seq<(Seq<char>, UpgradableAccount)>, id: Seq<char>) -> int {
    match lookup(m, id) {
        Some(account) => account.account().stake_balance as int,
        None => 0,
    }
}

/// One where `id` holds staked principal in `m`, zero otherwise.
pub open spec fn staking_in(m: Seq<(Seq<char>, UpgradableAccount)>, id: Seq<char>) -> int {
    match lookup(m, id) {
        Some(account) => staking(account),
        None => 0,
    }
}

/// In a ledger without duplicates a record is found at the one place where
/// its identifier stands.
pub proof fn lemma_position_unique(m: Seq<(Seq<char>, UpgradableAccount)>, i: int)
    requires
        distinct_ids(m),
        0 <= i < m.len(),
    ensures
        has_id(m, m[i].0),
        position(m, m[i].0) == i,
        lookup(m, m[i].0) == Some(m[i].1),
{
}

/// Replacing one record changes the staked total by the difference of the
/// two records' stakes, and the staker count by the difference of their
/// counts.
pub proof fn lemma_update_totals(
    m: Seq<(Seq<char>, UpgradableAccount)>,
    i: int,
    entry: (Seq<char>, UpgradableAccount),
)
    requires
        0 <= i < m.len(),
    ensures
        total_staked(m.update(i, entry)) == total_staked(m) - m[i].1.account().stake_balance
            + entry.1.account().stake_balance,
        staker_count(m.update(i, entry)) == staker_count(m) - staking(m[i].1) + staking(entry.1),
    decreases m.len(),
{
    let updated = m.update(i, entry);
    if i == m.len() - 1 {
        assert(updated.drop_last() =~= m.drop_last());
    } else {
        assert(updated.drop_last() =~= m.drop_last().update(i, entry));
        lemma_update_totals(m.drop_last(), i, entry);
    }
}

/// Adding a record adds its stake to the staked total and its count to the
/// staker count.
pub proof fn lemma_push_totals(
    m: Seq<(Seq<char>, UpgradableAccount)>,
    entry: (Seq<char>, UpgradableAccount),
)
    ensures
        total_staked(m.push(entry)) == total_staked(m) + entry.1.account().stake_balance,
        staker_count(m.push(entry)) == staker_count(m) + staking(entry.1),
{
    assert(m.push(entry).drop_last() =~= m);
}

/// What setting the record of `id` does to a ledger without duplicates: the
/// ledger stays without duplicates, `id` then has the new record, every other
/// principal keeps what it had, and the staked total and the staker count
/// change by what the record of `id` changed.
pub proof fn lemma_inserted(
    m: Seq<(Seq<char>, UpgradableAccount)>,
    id: Seq<char>,
    account: UpgradableAccount,
)
    requires
        distinct_ids(m),
    ensures
        distinct_ids(inserted(m, id, account)),
        lookup(inserted(m, id, account), id) == Some(account),
        forall|other: Seq<char>|
            other != id ==> lookup(inserted(m, id, account), other) == lookup(m, other),
        total_staked(inserted(m, id, account)) == total_staked(m) - staked_by(m, id)
            + account.account().stake_balance,
        staker_count(inserted(m, id, account)) == staker_count(m) - staking_in(m, id) + staking(
            account,
        ),
{
    let after = inserted(m, id, account);
    if has_id(m, id) {
        let p = position(m, id);
        lemma_update_totals(m, p, (id, account));
        lemma_position_unique(m, p);
        lemma_position_unique(after, p);
        assert forall|other: Seq<char>| other != id implies lookup(after, other) == lookup(
            m,
            other,
        ) by {
            if has_id(m, other) {
                lemma_position_unique(after, position(m, other));
            }
        }
    } else {
        lemma_push_totals(m, (id, account));
        lemma_position_unique(after, m.len() as int);
        assert forall|other: Seq<char>| other != id implies lookup(after, other) == lookup(
            m,
            other,
        ) by {
            if has_id(m, other) {
                lemma_position_unique(after, position(m, other));
            }
        }
    }
}

/// The ledger of account records, keyed by principal identifier. No
/// principal has more than one record, and a record is never removed.
#[derive(Debug)]
pub struct AccountLedger {
    entries: Vec<LedgerEntry>,
}

impl View for AccountLedger {
    type V = Seq<(Seq<char>, UpgradableAccount)>;

    /// The records in the order in which their principals were first seen,
    /// each with its principal's identifier.
    closed spec fn view(&self) -> Seq<(Seq<char>, UpgradableAccount)> {
        Seq::new(
            self.entries@.len(),
            |i: int| (self.entries@[i].account_id@, self.entries@[i].account),
        )
    }
}

impl AccountLedger {
    /// What holds of every ledger: no principal has two records.
    #[verifier::type_invariant]
    pub open spec fn no_duplicates(&self) -> bool {
        distinct_ids(self@)
    }

    /// The record of `id`, if there is one.
    pub open spec fn spec_get(&self, id: Seq<char>) -> Option<UpgradableAccount> {
        lookup(self@, id)
    }

    /// A ledger without records.
    pub fn new() -> (r: AccountLedger)
        ensures
            r@ == Seq::<(Seq<char>, UpgradableAccount)>::empty(),
    {
        let r = AccountLedger { entries: Vec::new() };
        r
    }

    /// Where the record of `account_id` stands, if there is one.
    fn find(&self, account_id: &String) -> (r: Option<usize>)
        ensures
            match r {
                Some(i) => has_id(self@, account_id@) && i == position(self@, account_id@) && i
                    < self.entries@.len(),
                None => !has_id(self@, account_id@),
            },
    {
        proof {
            use_type_invariant(self);
        }
        let mut i: usize = 0;
        while i < self.entries.len()
            invariant
                i <= self.entries@.len(),
                self@.len() == self.entries@.len(),
                distinct_ids(self@),
                forall|j: int| 0 <= j < i ==> (#[trigger] self@[j]).0 != account_id@,
            decreases self.entries@.len() - i,
        {
            if self.entries[i].account_id == *account_id {
                proof {
                    lemma_position_unique(self@, i as int);
                }
                return Some(i);
            }
            i += 1;
        }
        None
    }

    /// The record of `account_id`, if there is one.
    pub fn get(&self, account_id: &String) -> (r: Option<UpgradableAccount>)
        ensures
            r == lookup(self@, account_id@),
    {
        match self.find(account_id) {
            Some(i) => Some(self.entries[i].account),
            None => None,
        }
    }

    /// Sets the record of `account_id` to `account` and returns the record
    /// that it had before, if any.
    pub fn insert(&mut self, account_id: &String, account: &UpgradableAccount) -> (r: Option<
        UpgradableAccount,
    >)
        ensures
            final(self)@ == inserted(old(self)@, account_id@, *account),
            r == lookup(old(self)@, account_id@),
    {
        proof {
            use_type_invariant(&*self);
            lemma_inserted(self@, account_id@, *account);
        }
        let entry = LedgerEntry { account_id: account_id.clone(), account: *account };
        let found = self.find(account_id);
        let mut entries: Vec<LedgerEntry> = Vec::new();
        core::mem::swap(&mut self.entries, &mut entries);
        let previous = match found {
            Some(i) => {
                let previous = entries[i].account;
                entries.set(i, entry);
                Some(previous)
            },
            None => {
                entries.push(entry);
                None
            },
        };
        proof {
            let after = Seq::new(
                entries@.len(),
                |i: int| (entries@[i].account_id@, entries@[i].account),
            );
            assert(after =~= inserted(old(self)@, account_id@, *account));
        }
        self.entries = entries;
        previous
    }
}

} // verus!
