//! The balances state: a map from account id to balance that keeps the order
//! in which its accounts were first credited.

use crate::account::AccountId;
use vstd::prelude::*;
use vstd::seq_lib::lemma_seq_contains_after_push;

verus! {

/// The accounts of a list of balance entries, in order.
pub open spec fn holders(entries: Seq<(Seq<u8>, u128)>) -> Seq<Seq<u8>> {
    entries.map_values(|entry: (Seq<u8>, u128)| entry.0)
}

/// The balance that a list of entries gives an account: that of its first
/// entry, if it has one.
pub open spec fn balance_of(entries: Seq<(Seq<u8>, u128)>, who: Seq<u8>) -> Option<u128> {
    match holders(entries).index_of_first(who) {
        Some(at) => Some(entries[at].1),
        None => None,
    }
}

/// The entries after an account is credited: its entry is overwritten where
/// it has one, and a new entry is added at the end where it has none.
pub open spec fn credited(entries: Seq<(Seq<u8>, u128)>, who: Seq<u8>, amount: u128) -> Seq<
    (Seq<u8>, u128),
> {
    match holders(entries).index_of_first(who) {
        Some(at) => entries.update(at, (who, amount)),
        None => entries.push((who, amount)),
    }
}

/// The members of a list in the order of their first occurrence.
pub open spec fn first_occurrences(accounts: Seq<Seq<u8>>) -> Seq<Seq<u8>>
    decreases accounts.len(),
{
    if accounts.len() == 0 {
        accounts
    } else {
        let earlier = first_occurrences(accounts.drop_last());
        if accounts.drop_last().contains(accounts.last()) {
            earlier
        } else {
            earlier.push(accounts.last())
        }
    }
}

/// The balances state in which every listed account holds `amount`: one entry
/// for each account, in the order of first occurrence.
pub open spec fn endowment(accounts: Seq<Seq<u8>>, amount: u128) -> Seq<(Seq<u8>, u128)> {
    first_occurrences(accounts).map_values(|who: Seq<u8>| (who, amount))
}

/// The first occurrences of a list have the members of the list, each once.
pub proof fn lemma_first_occurrences(accounts: Seq<Seq<u8>>)
    ensures
        first_occurrences(accounts).no_duplicates(),
        first_occurrences(accounts).len() <= accounts.len(),
        forall|who: Seq<u8>| #[trigger]
            first_occurrences(accounts).contains(who) <==> accounts.contains(who),
    decreases accounts.len(),
{
    if accounts.len() > 0 {
        let rest = accounts.drop_last();
        let last = accounts.last();
        let earlier = first_occurrences(rest);
        lemma_first_occurrences(rest);
        assert(accounts =~= rest.push(last));
        assert forall|who: Seq<u8>| #[trigger]
            first_occurrences(accounts).contains(who) <==> accounts.contains(who) by {
            lemma_seq_contains_after_push(rest, last, who);
            lemma_seq_contains_after_push(earlier, last, who);
        }
        if !rest.contains(last) {
            let all = earlier.push(last);
            assert forall|i: int, j: int| 0 <= i < all.len() && 0 <= j < all.len() && i != j implies all[i]
                != all[j] by {
                if i < earlier.len() {
                    assert(earlier.contains(all[i]));
                }
                if j < earlier.len() {
                    assert(earlier.contains(all[j]));
                }
            }
        }
    }
}

/// A list without repetitions is its own list of first occurrences.
pub proof fn lemma_first_occurrences_of_distinct(accounts: Seq<Seq<u8>>)
    requires
        accounts.no_duplicates(),
    ensures
        first_occurrences(accounts) == accounts,
    decreases accounts.len(),
{
    if accounts.len() > 0 {
        let rest = accounts.drop_last();
        lemma_first_occurrences_of_distinct(rest);
        if rest.contains(accounts.last()) {
            let at = choose|at: int| 0 <= at < rest.len() && rest[at] == accounts.last();
            assert(accounts[at] == accounts[accounts.len() - 1]);
        }
        assert(rest.push(accounts.last()) =~= accounts);
    }
}

/// Crediting the next account of a list with the common amount extends the
/// endowment of the accounts before it to the endowment that includes it.
pub proof fn lemma_endowment_step(accounts: Seq<Seq<u8>>, amount: u128)
    requires
        accounts.len() > 0,
    ensures
        endowment(accounts, amount) == credited(
            endowment(accounts.drop_last(), amount),
            accounts.last(),
            amount,
        ),
{
    let rest = accounts.drop_last();
    let last = accounts.last();
    let earlier = first_occurrences(rest);
    let before = endowment(rest, amount);
    lemma_first_occurrences(rest);
    assert(holders(before) =~= earlier);
    holders(before).index_of_first_ensures(last);
    if rest.contains(last) {
        assert(earlier.contains(last));
        let at = holders(before).index_of_first(last).unwrap();
        assert(before[at] == (last, amount));
        assert(before.update(at, (last, amount)) =~= before);
    } else {
        assert(!earlier.contains(last));
        assert(earlier.push(last).map_values(|who: Seq<u8>| (who, amount)) =~= before.push(
            (last, amount),
        ));
    }
}

/// In an endowment exactly the listed accounts hold a balance, and each of
/// them holds the common amount.
pub proof fn lemma_endowment_balances(accounts: Seq<Seq<u8>>, amount: u128, who: Seq<u8>)
    ensures
        balance_of(endowment(accounts, amount), who) == if accounts.contains(who) {
            Some(amount)
        } else {
            None::<u128>
        },
{
    let entries = endowment(accounts, amount);
    lemma_first_occurrences(accounts);
    assert(holders(entries) =~= first_occurrences(accounts));
    holders(entries).index_of_first_ensures(who);
}

/// No account has two entries in an endowment, and where no account is
/// listed twice the entries follow the list.
pub proof fn lemma_endowment_holders(accounts: Seq<Seq<u8>>, amount: u128)
    ensures
        holders(endowment(accounts, amount)).no_duplicates(),
        accounts.no_duplicates() ==> holders(endowment(accounts, amount)) == accounts,
{
    lemma_first_occurrences(accounts);
    assert(holders(endowment(accounts, amount)) =~= first_occurrences(accounts));
    if accounts.no_duplicates() {
        lemma_first_occurrences_of_distinct(accounts);
    }
}

/// The initial balance of every account that has one.
#[derive(Clone, Debug, PartialEq, Eq)]
pub struct BalancesConfig {
    balances: Vec<(AccountId, u128)>,
}

impl View for BalancesConfig {
    type V = Seq<(Seq<u8>, u128)>;

    closed spec fn view(&self) -> Seq<(Seq<u8>, u128)> {
        self.balances@.map_values(|entry: (AccountId, u128)| (entry.0@, entry.1))
    }
}

impl BalancesConfig {
    /// No account has more than one entry.
    pub open spec fn wf(&self) -> bool {
        holders(self@).no_duplicates()
    }

    /// A state in which no account holds a balance.
    pub fn new() -> (config: BalancesConfig)
        ensures
            config@ == Seq::<(Seq<u8>, u128)>::empty(),
            config.wf(),
    {
        let config = BalancesConfig { balances: Vec::new() };
        assert(config@ =~= Seq::<(Seq<u8>, u128)>::empty());
        config
    }

    /// The number of accounts that hold a balance.
    pub fn len(&self) -> (len: usize)
        ensures
            len == self@.len(),
    {
        self.balances.len()
    }

    /// The entry at a position, counted in the order of first crediting.
    pub fn entry(&self, at: usize) -> (entry: (AccountId, u128))
        requires
            at < self@.len(),
        ensures
            (entry.0@, entry.1) == self@[at as int],
    {
        self.balances[at]
    }

    /// The position of the entry of an account, if it has one.
    fn position(&self, who: &AccountId) -> (found: Option<usize>)
        ensures
            found matches Some(at) ==> at < self@.len() && holders(self@).index_of_first(who@)
                == Some(at as int),
            found is None ==> holders(self@).index_of_first(who@) is None,
    {
        let mut at: usize = 0;
        while at < self.balances.len()
            invariant
                at <= self.balances.len(),
                forall|before: int| 0 <= before < at ==> holders(self@)[before] != who@,
            decreases self.balances.len() - at,
        {
            if self.balances[at].0 == *who {
                proof {
                    holders(self@).index_of_first_ensures(who@);
                    assert(holders(self@)[at as int] == who@);
                }
                return Some(at);
            }
            at += 1;
        }
        proof {
            holders(self@).index_of_first_ensures(who@);
        }
        None
    }

    /// The balance of an account, if it holds one.
    pub fn get(&self, who: &AccountId) -> (balance: Option<u128>)
        ensures
            balance == balance_of(self@, who@),
    {
        match self.position(who) {
            Some(at) => Some(self.balances[at].1),
            None => None,
        }
    }

    /// Credits an account with an amount. The last write wins: an account
    /// that holds a balance keeps its place and gets the new amount.
    pub fn insert(&mut self, who: AccountId, amount: u128)
        ensures
            final(self)@ == credited(old(self)@, who@, amount),
            old(self).wf() ==> final(self).wf(),
    {
        proof {
            holders(self@).index_of_first_ensures(who@);
        }
        let ghost before = self@;
        match self.position(&who) {
            Some(at) => {
                self.balances[at] = (who, amount);
                assert(self@ =~= before.update(at as int, (who@, amount)));
                assert(holders(self@) =~= holders(before));
            },
            None => {
                self.balances.push((who, amount));
                assert(self@ =~= before.push((who@, amount)));
                assert(holders(self@) =~= holders(before).push(who@));
            },
        }
    }
}

} // verus!
