//! Accounts of one kind, each at its address.

use vstd::prelude::*;
use crate::pubkey::Pubkey;

verus! {

/// An account together with the address it lives at.
struct Entry<T> {
    address: Pubkey,
    account: T,
}

/// Entry `i` of `entries` lives at `address`.
spec fn holds<T>(entries: Seq<Entry<T>>, address: Seq<u8>, i: int) -> bool {
    0 <= i < entries.len() && entries[i].address@ == address
}

/// No two entries share an address.
spec fn distinct<T>(entries: Seq<Entry<T>>) -> bool {
    forall|i: int, j: int|
        0 <= i < j < entries.len() ==> entries[i].address@ != entries[j].address@
}

/// The accounts of `entries` by the bytes of their addresses.
spec fn accounts<T>(entries: Seq<Entry<T>>) -> Map<Seq<u8>, T> {
    Map::new(
        |address: Seq<u8>| exists|i: int| holds(entries, address, i),
        |address: Seq<u8>| entries[choose|i: int| holds(entries, address, i)].account,
    )
}

/// Among distinct entries the one at an address is the account there.
proof fn lemma_account_at<T>(entries: Seq<Entry<T>>, address: Seq<u8>, i: int)
    requires
        distinct(entries),
        holds(entries, address, i),
    ensures
        accounts(entries).dom().contains(address),
        accounts(entries)[address] == entries[i].account,
{
    let j = choose|j: int| holds(entries, address, j);
    assert(holds(entries, address, j));
    if i < j {
        assert(entries[i].address@ != entries[j].address@);
    } else if j < i {
        assert(entries[j].address@ != entries[i].address@);
    }
}

/// Appending an entry at a free address adds its account.
proof fn lemma_push<T>(entries: Seq<Entry<T>>, entry: Entry<T>)
    requires
        distinct(entries),
        forall|i: int| !holds(entries, entry.address@, i),
    ensures
        distinct(entries.push(entry)),
        accounts(entries.push(entry)) == accounts(entries).insert(entry.address@, entry.account),
{
    let after = entries.push(entry);
    assert(distinct(after)) by {
        assert forall|i: int, j: int| 0 <= i < j < after.len() implies after[i].address@
            != after[j].address@ by {
            if j == entries.len() {
                assert(!holds(entries, entry.address@, i));
            }
        }
    }
    let expected = accounts(entries).insert(entry.address@, entry.account);
    assert forall|address: Seq<u8>| #[trigger]
        accounts(after).dom().contains(address) <==> expected.dom().contains(address) by {
        if accounts(after).dom().contains(address) {
            let i = choose|i: int| holds(after, address, i);
            if i < entries.len() {
                assert(holds(entries, address, i));
            }
        }
        if expected.dom().contains(address) {
            if address == entry.address@ {
                assert(holds(after, address, entries.len() as int));
            } else {
                let i = choose|i: int| holds(entries, address, i);
                assert(holds(after, address, i));
            }
        }
    }
    assert forall|address: Seq<u8>| #[trigger]
        expected.dom().contains(address) implies accounts(after)[address]
        == expected[address] by {
        if address == entry.address@ {
            lemma_account_at(after, address, entries.len() as int);
        } else {
            let i = choose|i: int| holds(entries, address, i);
            assert(holds(after, address, i));
            lemma_account_at(after, address, i);
            lemma_account_at(entries, address, i);
        }
    }
    assert(accounts(after) =~= expected);
}

/// Replacing an entry by one at the same address replaces its account.
proof fn lemma_update<T>(entries: Seq<Entry<T>>, at: int, entry: Entry<T>)
    requires
        distinct(entries),
        holds(entries, entry.address@, at),
    ensures
        distinct(entries.update(at, entry)),
        accounts(entries.update(at, entry)) == accounts(entries).insert(
            entry.address@,
            entry.account,
        ),
{
    let after = entries.update(at, entry);
    assert(distinct(after)) by {
        assert forall|i: int, j: int| 0 <= i < j < after.len() implies after[i].address@
            != after[j].address@ by {
            assert(entries[i].address@ != entries[j].address@);
        }
    }
    let expected = accounts(entries).insert(entry.address@, entry.account);
    assert forall|address: Seq<u8>| #[trigger]
        accounts(after).dom().contains(address) <==> expected.dom().contains(address) by {
        if accounts(after).dom().contains(address) {
            let i = choose|i: int| holds(after, address, i);
            assert(holds(entries, address, i));
        }
        if expected.dom().contains(address) {
            if address == entry.address@ {
                assert(holds(after, address, at));
            } else {
                let i = choose|i: int| holds(entries, address, i);
                assert(holds(after, address, i));
            }
        }
    }
    assert forall|address: Seq<u8>| #[trigger]
        expected.dom().contains(address) implies accounts(after)[address]
        == expected[address] by {
        if address == entry.address@ {
            lemma_account_at(after, address, at);
        } else {
            let i = choose|i: int| holds(entries, address, i);
            assert(holds(after, address, i));
            lemma_account_at(after, address, i);
            lemma_account_at(entries, address, i);
        }
    }
    assert(accounts(after) =~= expected);
}

/// Removing an entry removes the account at its address and no other.
proof fn lemma_remove<T>(entries: Seq<Entry<T>>, at: int)
    requires
        distinct(entries),
        0 <= at < entries.len(),
    ensures
        distinct(entries.remove(at)),
        accounts(entries.remove(at)) == accounts(entries).remove(entries[at].address@),
{
    let after = entries.remove(at);
    let gone = entries[at].address@;
    assert(distinct(after)) by {
        assert forall|i: int, j: int| 0 <= i < j < after.len() implies after[i].address@
            != after[j].address@ by {
            let before_i = if i < at { i } else { i + 1 };
            let before_j = if j < at { j } else { j + 1 };
            assert(entries[before_i].address@ != entries[before_j].address@);
        }
    }
    let expected = accounts(entries).remove(gone);
    assert forall|address: Seq<u8>| #[trigger]
        accounts(after).dom().contains(address) <==> expected.dom().contains(address) by {
        if accounts(after).dom().contains(address) {
            let i = choose|i: int| holds(after, address, i);
            let before = if i < at { i } else { i + 1 };
            assert(holds(entries, address, before));
            if before < at {
                assert(entries[before].address@ != entries[at].address@);
            } else {
                assert(entries[at].address@ != entries[before].address@);
            }
        }
        if expected.dom().contains(address) {
            let i = choose|i: int| holds(entries, address, i);
            let now = if i < at { i } else { i - 1 };
            assert(holds(after, address, now));
        }
    }
    assert forall|address: Seq<u8>| #[trigger]
        expected.dom().contains(address) implies accounts(after)[address]
        == expected[address] by {
        let i = choose|i: int| holds(entries, address, i);
        let now = if i < at { i } else { i - 1 };
        assert(holds(after, address, now));
        lemma_account_at(after, address, now);
        lemma_account_at(entries, address, i);
    }
    assert(accounts(after) =~= expected);
}

/// The accounts of one kind that exist, at most one per address.
pub struct AccountStore<T> {
    entries: Vec<Entry<T>>,
}

impl<T> AccountStore<T> {
    #[verifier::type_invariant]
    spec fn well_formed(&self) -> bool {
        distinct(self.entries@)
    }

    /// The accounts by the bytes of their addresses.
    pub closed spec fn view(&self) -> Map<Seq<u8>, T> {
        accounts(self.entries@)
    }
}

impl<T: Copy> AccountStore<T> {
    /// A store without accounts.
    pub fn new() -> (store: Self)
        ensures
            store@ == Map::<Seq<u8>, T>::empty(),
    {
        let store = AccountStore { entries: Vec::new() };
        assert(store@ =~= Map::<Seq<u8>, T>::empty());
        store
    }

    /// Position of the account at `address`, if there is one.
    fn position(&self, address: &Pubkey) -> (found: Option<usize>)
        ensures
            match found {
                Some(i) => holds(self.entries@, address@, i as int),
                None => forall|i: int| !holds(self.entries@, address@, i),
            },
    {
        let mut i: usize = 0;
        while i < self.entries.len()
            invariant
                i <= self.entries@.len(),
                forall|k: int| 0 <= k < i ==> !holds(self.entries@, address@, k),
            decreases self.entries@.len() - i,
        {
            if self.entries[i].address.same_as(address) {
                return Some(i);
            }
            i += 1;
        }
        None
    }

    /// The account at `address`, if there is one.
    pub fn get(&self, address: &Pubkey) -> (account: Option<T>)
        ensures
            account == (if self@.dom().contains(address@) {
                Some(self@[address@])
            } else {
                None
            }),
    {
        proof {
            use_type_invariant(self);
        }
        match self.position(address) {
            Some(i) => {
                proof {
                    lemma_account_at(self.entries@, address@, i as int);
                }
                Some(self.entries[i].account)
            },
            None => None,
        }
    }

    /// Whether an account exists at `address`.
    pub fn contains(&self, address: &Pubkey) -> (present: bool)
        ensures
            present == self@.dom().contains(address@),
    {
        self.position(address).is_some()
    }

    /// Puts `account` at `address`: a new account where none was, else in
    /// place of the one that was there.
    pub fn insert(&mut self, address: Pubkey, account: T)
        ensures
            final(self)@ == old(self)@.insert(address@, account),
    {
        proof {
            use_type_invariant(&*self);
        }
        let found = self.position(&address);
        let entry = Entry { address, account };
        let mut entries: Vec<Entry<T>> = Vec::new();
        core::mem::swap(&mut entries, &mut self.entries);
        match found {
            Some(i) => {
                proof {
                    lemma_update(entries@, i as int, entry);
                }
                entries.set(i, entry);
            },
            None => {
                proof {
                    lemma_push(entries@, entry);
                }
                entries.push(entry);
            },
        }
        self.entries = entries;
    }

    /// Removes the account at `address` and returns it, if there is one.
    pub fn remove(&mut self, address: &Pubkey) -> (account: Option<T>)
        ensures
            final(self)@ == old(self)@.remove(address@),
            account == (if old(self)@.dom().contains(address@) {
                Some(old(self)@[address@])
            } else {
                None
            }),
    {
        proof {
            use_type_invariant(&*self);
        }
        match self.position(address) {
            Some(i) => {
                let mut entries: Vec<Entry<T>> = Vec::new();
                core::mem::swap(&mut entries, &mut self.entries);
                proof {
                    lemma_account_at(entries@, address@, i as int);
                    lemma_remove(entries@, i as int);
                }
                let entry = entries.remove(i);
                self.entries = entries;
                Some(entry.account)
            },
            None => {
                assert(self@ =~= old(self)@.remove(address@));
                None
            },
        }
    }
}

} // verus!
