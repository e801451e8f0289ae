//! The storage of the review records: each at its address, no address
//! twice.

use vstd::prelude::*;
use crate::pubkey::Pubkey;
use crate::state::{MovieAccountState, MovieAccountStateView};

verus! {

/// A stored review: where it lives, how many bytes were reserved for it
/// when it was created, and what it says.
#[derive(Debug)]
pub struct ReviewAccount {
    pub address: Pubkey,
    pub space: usize,
    pub data: MovieAccountState,
}

/// What is stored at the address of a review, as mathematical values.
pub struct ReviewAccountView {
    pub space: usize,
    pub data: MovieAccountStateView,
}

impl View for ReviewAccount {
    type V = ReviewAccountView;

    open spec fn view(&self) -> ReviewAccountView {
        ReviewAccountView { space: self.space, data: self.data@ }
    }
}

/// Whether some account of `accounts` lives at `address`.
spec fn holds(accounts: Seq<ReviewAccount>, address: Pubkey) -> bool {
    exists|i: int| 0 <= i < accounts.len() && (#[trigger] accounts[i]).address == address
}

/// The place in `accounts` of an account that lives at `address`.
spec fn place(accounts: Seq<ReviewAccount>, address: Pubkey) -> int {
    choose|i: int| 0 <= i < accounts.len() && (#[trigger] accounts[i]).address == address
}

/// Whether no two accounts of `accounts` live at one address.
spec fn distinct(accounts: Seq<ReviewAccount>) -> bool {
    forall|i: int, j: int|
        0 <= i < j < accounts.len() ==> (#[trigger] accounts[i]).address != (
        #[trigger] accounts[j]).address
}

/// The accounts by their addresses.
spec fn by_address(accounts: Seq<ReviewAccount>) -> Map<Pubkey, ReviewAccountView> {
    Map::new(
        |address: Pubkey| holds(accounts, address),
        |address: Pubkey| accounts[place(accounts, address)]@,
    )
}

/// Among distinct accounts, each is the one found at its address.
proof fn lemma_place(accounts: Seq<ReviewAccount>, i: int)
    requires
        distinct(accounts),
        0 <= i < accounts.len(),
    ensures
        place(accounts, accounts[i].address) == i,
        by_address(accounts).contains_key(accounts[i].address),
        by_address(accounts)[accounts[i].address] == accounts[i]@,
{
    let address = accounts[i].address;
    let p = place(accounts, address);
    assert(0 <= p < accounts.len() && accounts[p].address == address);
    if p < i {
        assert(accounts[p].address != accounts[i].address);
    } else if i < p {
        assert(accounts[i].address != accounts[p].address);
    }
}

/// Appending an account at a free address adds it to the map.
proof fn lemma_push(accounts: Seq<ReviewAccount>, account: ReviewAccount)
    requires
        distinct(accounts),
        !holds(accounts, account.address),
    ensures
        distinct(accounts.push(account)),
        by_address(accounts.push(account)) == by_address(accounts).insert(
            account.address,
            account@,
        ),
{
    let after = accounts.push(account);
    let expected = by_address(accounts).insert(account.address, account@);
    assert forall|i: int, j: int| 0 <= i < j < after.len() implies (#[trigger] after[i]).address
        != (#[trigger] after[j]).address by {
        if j == accounts.len() {
            assert(after[i] == accounts[i]);
            assert(accounts[i].address != account.address);
        } else {
            assert(after[i] == accounts[i]);
            assert(after[j] == accounts[j]);
        }
    }
    assert forall|address: Pubkey|
        by_address(after).contains_key(address) == #[trigger] expected.contains_key(
            address,
        ) by {
        if holds(accounts, address) {
            let i = place(accounts, address);
            assert(after[i].address == address);
        }
        if holds(after, address) {
            let i = place(after, address);
            if i < accounts.len() {
                assert(accounts[i].address == address);
            }
        }
        if address == account.address {
            assert(after[accounts.len() as int].address == address);
        }
    }
    assert forall|address: Pubkey| #[trigger]
        by_address(after).contains_key(address) implies by_address(after)[address]
        == expected[address] by {
        let i = place(after, address);
        lemma_place(after, i);
        if i < accounts.len() {
            assert(after[i] == accounts[i]);
            lemma_place(accounts, i);
        }
    }
    assert(by_address(after) =~= expected);
}

/// Replacing an account by one at the same address replaces it in the map.
proof fn lemma_update(accounts: Seq<ReviewAccount>, i: int, account: ReviewAccount)
    requires
        distinct(accounts),
        0 <= i < accounts.len(),
        account.address == accounts[i].address,
    ensures
        distinct(accounts.update(i, account)),
        by_address(accounts.update(i, account)) == by_address(accounts).insert(
            account.address,
            account@,
        ),
{
    let after = accounts.update(i, account);
    let expected = by_address(accounts).insert(account.address, account@);
    assert forall|a: int, b: int| 0 <= a < b < after.len() implies (#[trigger] after[a]).address
        != (#[trigger] after[b]).address by {
        assert(after[a].address == accounts[a].address);
        assert(after[b].address == accounts[b].address);
    }
    assert forall|address: Pubkey|
        by_address(after).contains_key(address) == #[trigger] expected.contains_key(
            address,
        ) by {
        if holds(accounts, address) {
            let k = place(accounts, address);
            assert(after[k].address == address);
        }
        if holds(after, address) {
            let k = place(after, address);
            assert(accounts[k].address == address);
        }
        if address == account.address {
            assert(after[i].address == address);
        }
    }
    assert forall|address: Pubkey| #[trigger]
        by_address(after).contains_key(address) implies by_address(after)[address]
        == expected[address] by {
        let k = place(after, address);
        lemma_place(after, k);
        if k != i {
            assert(after[k] == accounts[k]);
            lemma_place(accounts, k);
        }
    }
    assert(by_address(after) =~= expected);
}

/// Taking an account out takes its address out of the map.
proof fn lemma_remove(accounts: Seq<ReviewAccount>, i: int)
    requires
        distinct(accounts),
        0 <= i < accounts.len(),
    ensures
        distinct(accounts.remove(i)),
        by_address(accounts.remove(i)) == by_address(accounts).remove(accounts[i].address),
{
    let after = accounts.remove(i);
    let gone = accounts[i].address;
    let expected = by_address(accounts).remove(gone);
    assert forall|a: int, b: int| 0 <= a < b < after.len() implies (#[trigger] after[a]).address
        != (#[trigger] after[b]).address by {
        let a0 = if a < i { a } else { a + 1 };
        let b0 = if b < i { b } else { b + 1 };
        assert(after[a] == accounts[a0]);
        assert(after[b] == accounts[b0]);
        assert(accounts[a0].address != accounts[b0].address);
    }
    assert forall|address: Pubkey|
        by_address(after).contains_key(address) == #[trigger] expected.contains_key(
            address,
        ) by {
        if holds(accounts, address) && address != gone {
            let k = place(accounts, address);
            let k1 = if k < i { k } else { k - 1 };
            assert(after[k1] == accounts[k]);
            assert(after[k1].address == address);
        }
        if holds(after, address) {
            let k = place(after, address);
            let k0 = if k < i { k } else { k + 1 };
            assert(after[k] == accounts[k0]);
            assert(accounts[k0].address == address);
            if k0 < i {
                assert(accounts[k0].address != accounts[i].address);
            } else {
                assert(accounts[i].address != accounts[k0].address);
            }
        }
    }
    assert forall|address: Pubkey| #[trigger]
        by_address(after).contains_key(address) implies by_address(after)[address]
        == expected[address] by {
        let k = place(after, address);
        lemma_place(after, k);
        let k0 = if k < i { k } else { k + 1 };
        assert(after[k] == accounts[k0]);
        lemma_place(accounts, k0);
    }
    assert(by_address(after) =~= expected);
}

/// Distinct accounts are as many as their addresses.
proof fn lemma_len(accounts: Seq<ReviewAccount>)
    requires
        distinct(accounts),
    ensures
        by_address(accounts).dom().finite(),
        by_address(accounts).len() == accounts.len(),
    decreases accounts.len(),
{
    if accounts.len() == 0 {
        assert(by_address(accounts) =~= Map::empty());
    } else {
        let last = accounts.len() - 1;
        lemma_remove(accounts, last);
        lemma_len(accounts.remove(last));
        lemma_place(accounts, last);
        let all = by_address(accounts);
        let gone = accounts[last].address;
        assert(all.dom() =~= all.remove(gone).dom().insert(gone));
    }
}

/// The review records of one program. Its view is the map from each taken
/// address to what is stored there.
pub struct AccountStore {
    accounts: Vec<ReviewAccount>,
}

impl View for AccountStore {
    type V = Map<Pubkey, ReviewAccountView>;

    closed spec fn view(&self) -> Map<Pubkey, ReviewAccountView> {
        by_address(self.accounts@)
    }
}

impl AccountStore {
    /// Whether no two records are kept for one address.
    pub closed spec fn wf(&self) -> bool {
        distinct(self.accounts@)
    }

    /// The empty store.
    pub fn new() -> (store: AccountStore)
        ensures
            store.wf(),
            store@ == Map::<Pubkey, ReviewAccountView>::empty(),
    {
        let store = AccountStore { accounts: Vec::new() };
        assert(store@ =~= Map::empty());
        store
    }

    /// The number of records.
    pub fn len(&self) -> (len: usize)
        requires
            self.wf(),
        ensures
            len == self@.len(),
    {
        proof {
            lemma_len(self.accounts@);
        }
        self.accounts.len()
    }

    /// Where in the store the record of `address` is kept.
    fn position(&self, address: &Pubkey) -> (found: Option<usize>)
        requires
            self.wf(),
        ensures
            found is Some <==> self@.contains_key(*address),
            found matches Some(i) ==> {
                &&& i < self.accounts@.len()
                &&& self.accounts@[i as int].address == *address
                &&& self.accounts@[i as int]@ == self@[*address]
            },
    {
        let mut i: usize = 0;
        while i < self.accounts.len()
            invariant
                i <= self.accounts@.len(),
                distinct(self.accounts@),
                forall|j: int| 0 <= j < i ==> (#[trigger] self.accounts@[j]).address != *address,
            decreases self.accounts@.len() - i,
        {
            if self.accounts[i].address.equals(address) {
                proof {
                    lemma_place(self.accounts@, i as int);
                }
                return Some(i);
            }
            i += 1;
        }
        None
    }

    /// The record that lives at `address`, if one does.
    pub fn get(&self, address: &Pubkey) -> (found: Option<&ReviewAccount>)
        requires
            self.wf(),
        ensures
            found is Some <==> self@.contains_key(*address),
            found matches Some(account) ==> {
                &&& account.address == *address
                &&& account@ == self@[*address]
            },
    {
        match self.position(address) {
            Some(i) => Some(&self.accounts[i]),
            None => None,
        }
    }

    /// Stores `account` at its address, in place of what was stored there.
    pub fn insert(&mut self, account: ReviewAccount)
        requires
            old(self).wf(),
        ensures
            final(self).wf(),
            final(self)@ == old(self)@.insert(account.address, account@),
    {
        match self.position(&account.address) {
            Some(i) => {
                proof {
                    lemma_update(self.accounts@, i as int, account);
                }
                self.accounts.set(i, account);
            },
            None => {
                proof {
                    lemma_push(self.accounts@, account);
                }
                self.accounts.push(account);
            },
        }
    }

    /// Takes out the record that lives at `address`, if one does.
    pub fn remove(&mut self, address: &Pubkey) -> (removed: Option<ReviewAccount>)
        requires
            old(self).wf(),
        ensures
            final(self).wf(),
            removed is Some <==> old(self)@.contains_key(*address),
            removed matches Some(account) ==> {
                &&& account.address == *address
                &&& account@ == old(self)@[*address]
            },
            final(self)@ == old(self)@.remove(*address),
    {
        match self.position(address) {
            Some(i) => {
                proof {
                    lemma_remove(self.accounts@, i as int);
                }
                Some(self.accounts.remove(i))
            },
            None => {
                assert(self@.remove(*address) =~= self@);
                None
            },
        }
    }
}

} // verus!
