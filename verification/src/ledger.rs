//! The accounts that the instructions read and change: native balances,
//! token accounts and order records, each under its address.

use vstd::prelude::*;
use crate::pubkey::Pubkey;
use crate::state::Order;

verus! {

/// What a token account of the fungible-token sub-system records.
#[derive(Clone, Copy, Debug, PartialEq, Eq)]
pub struct TokenAccount {
    /// The asset that the account holds.
    pub mint: Pubkey,
    /// Who may move the tokens out and close the account.
    pub authority: Pubkey,
    /// How many tokens it holds.
    pub amount: u64,
}

/// The interpreted contents of an account.
#[derive(Clone, Copy, Debug, PartialEq, Eq)]
pub enum AccountData {
    /// Nothing: a wallet or a bare balance holder.
    Empty,
    /// A token account.
    Token(TokenAccount),
    /// An order record.
    Order(Order),
}

/// One account of the ledger.
#[derive(Clone, Copy, Debug, PartialEq, Eq)]
pub struct Account {
    /// Native balance.
    pub lamports: u64,
    /// The program that owns the account.
    pub owner: Pubkey,
    /// Bytes reserved for the account's contents.
    pub space: u64,
    /// The contents.
    pub data: AccountData,
}

/// An address with the account that stands under it.
#[derive(Clone, Copy, Debug)]
struct Entry {
    key: Pubkey,
    account: Account,
}

/// A set of accounts, at most one under each address. Its view is the map
/// from the addresses in use to their accounts.
#[derive(Debug)]
pub struct Ledger {
    entries: Vec<Entry>,
}

spec fn holds(entries: Seq<Entry>, key: Pubkey) -> bool {
    exists|i: int| 0 <= i < entries.len() && (#[trigger] entries[i]).key == key
}

spec fn place(entries: Seq<Entry>, key: Pubkey) -> int {
    choose|i: int| 0 <= i < entries.len() && (#[trigger] entries[i]).key == key
}

spec fn distinct(entries: Seq<Entry>) -> bool {
    forall|i: int, j: int|
        0 <= i < j < entries.len() ==> (#[trigger] entries[i]).key != (#[trigger] entries[j]).key
}

proof fn lemma_place(entries: Seq<Entry>, i: int)
    requires
        distinct(entries),
        0 <= i < entries.len(),
    ensures
        holds(entries, entries[i].key),
        place(entries, entries[i].key) == i,
{
    let k = entries[i].key;
    assert(holds(entries, k));
    let p = place(entries, k);
    assert(0 <= p < entries.len() && entries[p].key == k);
    if p < i {
        assert(entries[p].key != entries[i].key);
    } else if i < p {
        assert(entries[i].key != entries[p].key);
    }
}

impl View for Ledger {
    type V = Map<Pubkey, Account>;

    closed spec fn view(&self) -> Map<Pubkey, Account> {
        Map::new(
            |k: Pubkey| holds(self.entries@, k),
            |k: Pubkey| self.entries@[place(self.entries@, k)].account,
        )
    }
}

impl Ledger {
    #[verifier::type_invariant]
    spec fn inv(&self) -> bool {
        distinct(self.entries@)
    }

    /// The ledger without any account.
    pub fn new() -> (l: Ledger)
        ensures
            l@ == Map::<Pubkey, Account>::empty(),
    {
        let l = Ledger { entries: Vec::new() };
        assert(l@ =~= Map::<Pubkey, Account>::empty());
        l
    }

    fn position(&self, key: &Pubkey) -> (r: Option<usize>)
        ensures
            match r {
                Some(i) => i < self.entries@.len() && self.entries@[i as int].key == *key
                    && holds(self.entries@, *key) && place(self.entries@, *key) == i,
                None => !holds(self.entries@, *key),
            },
    {
        proof {
            use_type_invariant(self);
        }
        let n = self.entries.len();
        let mut i: usize = 0;
        while i < n
            invariant
                i <= n,
                n == self.entries@.len(),
                distinct(self.entries@),
                forall|j: int| 0 <= j < i ==> (#[trigger] self.entries@[j]).key != *key,
            decreases n - i,
        {
            if self.entries[i].key == *key {
                proof {
                    lemma_place(self.entries@, i as int);
                }
                return Some(i);
            }
            i += 1;
        }
        None
    }

    /// The account under `key`, if the address is in use.
    pub fn get(&self, key: &Pubkey) -> (r: Option<Account>)
        ensures
            r == (if self@.contains_key(*key) {
                Some(self@[*key])
            } else {
                None
            }),
    {
        match self.position(key) {
            Some(i) => Some(self.entries[i].account),
            None => None,
        }
    }

    /// Whether the address is in use.
    pub fn contains(&self, key: &Pubkey) -> (r: bool)
        ensures
            r == self@.contains_key(*key),
    {
        self.position(key).is_some()
    }

    /// Number of accounts.
    pub fn len(&self) -> (n: usize)
        ensures
            n == self@.len(),
            self@.dom().finite(),
    {
        proof {
            use_type_invariant(self);
            lemma_count(self.entries@);
            assert(self@.dom() =~= keys(self.entries@));
        }
        self.entries.len()
    }

    /// Puts `account` under `key`, in place of what stood there.
    pub fn set(&mut self, key: Pubkey, account: Account)
        ensures
            final(self)@ == old(self)@.insert(key, account),
    {
        proof {
            use_type_invariant(&*self);
        }
        let ghost before = self.entries@;
        let found = self.position(&key);
        let mut entries: Vec<Entry> = Vec::new();
        std::mem::swap(&mut self.entries, &mut entries);
        match found {
            Some(i) => {
                entries.set(i, Entry { key, account });
                proof {
                    let after = entries@;
                    assert(distinct(after)) by {
                        assert forall|a: int, b: int| 0 <= a < b < after.len() implies (
                        #[trigger] after[a]).key != (#[trigger] after[b]).key by {
                            assert(before[a].key != before[b].key);
                        }
                    }
                    assert forall|k: Pubkey| holds(after, k) == holds(before, k) by {
                        if holds(before, k) {
                            let p = place(before, k);
                            assert(after[p].key == k);
                        }
                        if holds(after, k) {
                            let p = place(after, k);
                            assert(before[p].key == k);
                        }
                    }
                    assert forall|k: Pubkey| holds(after, k) implies after[place(after, k)].account
                        == (if k == key {
                        account
                    } else {
                        before[place(before, k)].account
                    }) by {
                        let p = place(after, k);
                        lemma_place(after, p);
                        assert(before[p].key == k);
                        lemma_place(before, p);
                    }
                }
            },
            None => {
                entries.push(Entry { key, account });
                proof {
                    let after = entries@;
                    let n = before.len() as int;
                    assert(distinct(after)) by {
                        assert forall|a: int, b: int| 0 <= a < b < after.len() implies (
                        #[trigger] after[a]).key != (#[trigger] after[b]).key by {
                            if b < n {
                                assert(before[a].key != before[b].key);
                            } else {
                                assert(before[a].key != key);
                            }
                        }
                    }
                    assert(after[n].key == key);
                    assert forall|k: Pubkey| holds(after, k) == (k == key || holds(before, k)) by {
                        if holds(before, k) {
                            let p = place(before, k);
                            assert(after[p].key == k);
                        }
                        if holds(after, k) {
                            let p = place(after, k);
                            if p < n {
                                assert(before[p].key == k);
                            }
                        }
                    }
                    assert forall|k: Pubkey| holds(after, k) implies after[place(after, k)].account
                        == (if k == key {
                        account
                    } else {
                        before[place(before, k)].account
                    }) by {
                        let p = place(after, k);
                        lemma_place(after, p);
                        if p < n {
                            assert(before[p].key == k);
                            lemma_place(before, p);
                        }
                    }
                }
            },
        }
        std::mem::swap(&mut self.entries, &mut entries);
        assert(self@ =~= old(self)@.insert(key, account));
    }

    /// Takes the account under `key` away, if there is one.
    pub fn remove(&mut self, key: &Pubkey)
        ensures
            final(self)@ == old(self)@.remove(*key),
    {
        proof {
            use_type_invariant(&*self);
        }
        let ghost before = self.entries@;
        let found = self.position(key);
        let mut entries: Vec<Entry> = Vec::new();
        std::mem::swap(&mut self.entries, &mut entries);
        match found {
            Some(i) => {
                entries.remove(i);
                proof {
                    let after = entries@;
                    let at = i as int;
                    assert(after =~= before.remove(at));
                    assert forall|a: int| 0 <= a < after.len() implies #[trigger] after[a]
                        == before[if a < at {
                        a
                    } else {
                        a + 1
                    }] by {}
                    assert(distinct(after)) by {
                        assert forall|a: int, b: int| 0 <= a < b < after.len() implies (
                        #[trigger] after[a]).key != (#[trigger] after[b]).key by {
                            let a0 = if a < at { a } else { a + 1 };
                            let b0 = if b < at { b } else { b + 1 };
                            assert(before[a0].key != before[b0].key);
                        }
                    }
                    assert forall|k: Pubkey| holds(after, k) == (k != *key && holds(before, k)) by {
                        if holds(before, k) && k != *key {
                            let p = place(before, k);
                            let q = if p < at { p } else { p - 1 };
                            assert(after[q].key == k);
                        }
                        if holds(after, k) {
                            let p = place(after, k);
                            let p0 = if p < at { p } else { p + 1 };
                            assert(before[p0].key == k);
                            assert(before[at].key != before[p0].key) by {
                                if at < p0 {
                                    assert(before[at].key != before[p0].key);
                                } else {
                                    assert(before[p0].key != before[at].key);
                                }
                            }
                        }
                    }
                    assert forall|k: Pubkey| holds(after, k) implies after[place(after, k)].account
                        == before[place(before, k)].account by {
                        let p = place(after, k);
                        lemma_place(after, p);
                        let p0 = if p < at { p } else { p + 1 };
                        assert(before[p0].key == k);
                        lemma_place(before, p0);
                    }
                }
            },
            None => {},
        }
        std::mem::swap(&mut self.entries, &mut entries);
        assert(self@ =~= old(self)@.remove(*key));
    }

    /// The addresses in use, each once.
    pub fn keys(&self) -> (r: Vec<Pubkey>)
        ensures
            r@.no_duplicates(),
            forall|k: Pubkey| r@.contains(k) <==> self@.contains_key(k),
    {
        proof {
            use_type_invariant(self);
        }
        let n = self.entries.len();
        let mut r: Vec<Pubkey> = Vec::new();
        let mut i: usize = 0;
        while i < n
            invariant
                i <= n,
                n == self.entries@.len(),
                r@.len() == i,
                forall|j: int| 0 <= j < i ==> r@[j] == (#[trigger] self.entries@[j]).key,
            decreases n - i,
        {
            r.push(self.entries[i].key);
            i += 1;
        }
        proof {
            assert forall|a: int, b: int| 0 <= a < r@.len() && 0 <= b < r@.len() && a != b implies r@[a]
                != r@[b] by {
                if a < b {
                    assert(self.entries@[a].key != self.entries@[b].key);
                } else {
                    assert(self.entries@[b].key != self.entries@[a].key);
                }
            }
            assert forall|k: Pubkey| r@.contains(k) <==> self@.contains_key(k) by {
                if r@.contains(k) {
                    let j = choose|j: int| 0 <= j < r@.len() && r@[j] == k;
                    assert(self.entries@[j].key == k);
                }
                if self@.contains_key(k) {
                    let p = place(self.entries@, k);
                    assert(r@[p] == k);
                }
            }
        }
        r
    }

    /// A copy of the ledger.
    pub fn snapshot(&self) -> (l: Ledger)
        ensures
            l@ == self@,
    {
        proof {
            use_type_invariant(self);
        }
        let n = self.entries.len();
        let mut entries: Vec<Entry> = Vec::new();
        let mut i: usize = 0;
        while i < n
            invariant
                i <= n,
                n == self.entries@.len(),
                entries@ == self.entries@.subrange(0, i as int),
            decreases n - i,
        {
            entries.push(self.entries[i]);
            assert(entries@ =~= self.entries@.subrange(0, i + 1));
            i += 1;
        }
        assert(entries@ =~= self.entries@);
        Ledger { entries }
    }
}

spec fn keys(entries: Seq<Entry>) -> Set<Pubkey> {
    Set::new(|k: Pubkey| holds(entries, k))
}

proof fn lemma_count(entries: Seq<Entry>)
    requires
        distinct(entries),
    ensures
        keys(entries).finite(),
        keys(entries).len() == entries.len(),
    decreases entries.len(),
{
    if entries.len() == 0 {
        assert(keys(entries) =~= Set::<Pubkey>::empty());
    } else {
        let front = entries.drop_last();
        let last = entries.last();
        assert(distinct(front)) by {
            assert forall|a: int, b: int| 0 <= a < b < front.len() implies (#[trigger] front[a]).key
                != (#[trigger] front[b]).key by {
                assert(entries[a].key != entries[b].key);
            }
        }
        lemma_count(front);
        assert(!holds(front, last.key)) by {
            if holds(front, last.key) {
                let p = place(front, last.key);
                assert(entries[p].key != entries[entries.len() - 1].key);
            }
        }
        assert(keys(entries) =~= keys(front).insert(last.key)) by {
            assert forall|k: Pubkey| holds(entries, k) == (k == last.key || holds(front, k)) by {
                if holds(front, k) {
                    let p = place(front, k);
                    assert(entries[p].key == k);
                }
                if k == last.key {
                    assert(entries[entries.len() - 1].key == k);
                }
                if holds(entries, k) {
                    let p = place(entries, k);
                    if p < front.len() {
                        assert(front[p].key == k);
                    }
                }
            }
        }
    }
}

} // verus!
