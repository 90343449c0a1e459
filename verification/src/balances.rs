use vstd::prelude::*;

use crate::address::AddressKey;

verus! {

/// The balance of every account that has one, keyed by account.
///
/// Each account occurs at most once; an account without an entry holds
/// nothing.
pub struct Balances {
    entries: Vec<(AddressKey, i128)>,
}

impl Balances {
    /// The account of the entry at position `i`.
    pub closed spec fn key_at(self, i: int) -> Seq<u8> {
        self.entries@[i].0@
    }

    /// The amount of the entry at position `i`.
    pub closed spec fn amount_at(self, i: int) -> i128 {
        self.entries@[i].1
    }

    /// The accounts of the entries, in the order in which they are stored.
    pub closed spec fn keys(self) -> Seq<Seq<u8>> {
        self.entries@.map_values(|e: (AddressKey, i128)| e.0@)
    }

    /// The number of entries.
    pub closed spec fn count(self) -> nat {
        self.entries@.len()
    }

    /// Whether some entry belongs to `key`.
    pub open spec fn has_entry(self, key: Seq<u8>) -> bool {
        exists|i: int| 0 <= i < self.count() && self.key_at(i) == key
    }

    /// The position of the entry that belongs to `key`.
    pub open spec fn position_of(self, key: Seq<u8>) -> int {
        choose|i: int| 0 <= i < self.count() && self.key_at(i) == key
    }

    /// No account has two entries.
    #[verifier::type_invariant]
    pub closed spec fn keys_distinct(self) -> bool {
        forall|i: int, j: int|
            0 <= i < self.entries@.len() && 0 <= j < self.entries@.len() && i != j
                ==> self.entries@[i].0@ != self.entries@[j].0@
    }

}

impl View for Balances {
    type V = Map<Seq<u8>, i128>;

    open spec fn view(&self) -> Map<Seq<u8>, i128> {
        Map::new(|k: Seq<u8>| self.has_entry(k), |k: Seq<u8>| self.amount_at(self.position_of(k)))
    }
}

impl Balances {
    /// No entries.
    pub fn new() -> (b: Balances)
        ensures
            b@ == Map::<Seq<u8>, i128>::empty(),
    {
        let b = Balances { entries: Vec::new() };
        assert(b@ =~= Map::<Seq<u8>, i128>::empty());
        b
    }

    /// The number of entries, which is the number of accounts with a balance;
    /// the entries at positions `0..n` hold each of those accounts once.
    pub fn len(&self) -> (n: usize)
        ensures
            n == self.keys().len(),
            self.keys().no_duplicates(),
            self.keys().to_set() == self@.dom(),
            self@.dom().len() == n,
    {
        proof {
            use_type_invariant(self);
            let ks = self.keys();
            assert forall|i: int, j: int| 0 <= i < ks.len() && 0 <= j < ks.len() && i != j implies ks[i]
                != ks[j] by {
                assert(ks[i] == self.key_at(i));
                assert(ks[j] == self.key_at(j));
            }
            assert forall|k: Seq<u8>| ks.to_set().contains(k) == self@.dom().contains(k) by {
                if ks.contains(k) {
                    let i = choose|i: int| 0 <= i < ks.len() && ks[i] == k;
                    assert(self.key_at(i) == k);
                }
                if self.has_entry(k) {
                    let i = self.position_of(k);
                    assert(ks[i] == k);
                }
            }
            assert(ks.to_set() =~= self@.dom());
            ks.unique_seq_to_set();
        }
        self.entries.len()
    }

    /// The account and amount of the entry at position `i`.
    pub fn entry(&self, i: usize) -> (e: (AddressKey, i128))
        requires
            i < self.keys().len(),
        ensures
            e.0@ == self.keys()[i as int],
            self@.contains_key(e.0@),
            self@[e.0@] == e.1,
    {
        proof {
            use_type_invariant(self);
        }
        let key = self.entries[i].0.duplicate();
        let amount = self.entries[i].1;
        proof {
            key_position_unique(*self, key@, i as int);
        }
        (key, amount)
    }

    /// The position of the entry of `key`, if it has one.
    fn find(&self, key: &AddressKey) -> (pos: Option<usize>)
        ensures
            match pos {
                Some(i) => i < self.count() && self.key_at(i as int) == key@,
                None => !self.has_entry(key@),
            },
    {
        let n = self.entries.len();
        for i in 0..n
            invariant
                n == self.count(),
                forall|j: int| 0 <= j < i ==> self.key_at(j) != key@,
        {
            if self.entries[i].0.same_as(key) {
                return Some(i);
            }
        }
        None
    }

    /// The amount held by `key`, if it has an entry.
    pub fn get(&self, key: &AddressKey) -> (amount: Option<i128>)
        ensures
            amount == (if self@.contains_key(key@) {
                Some(self@[key@])
            } else {
                None::<i128>
            }),
    {
        match self.find(key) {
            Some(i) => {
                proof {
                    use_type_invariant(self);
                    key_position_unique(*self, key@, i as int);
                }
                Some(self.entries[i].1)
            },
            None => None,
        }
    }

    /// Gives `key` the amount `amount`, replacing what it held.
    pub fn set(&mut self, key: AddressKey, amount: i128)
        ensures
            final(self)@ == old(self)@.insert(key@, amount),
    {
        proof {
            use_type_invariant(&*self);
        }
        let ghost before = *self;
        let ghost k = key@;
        match self.find(&key) {
            Some(i) => {
                let mut entries: Vec<(AddressKey, i128)> = Vec::new();
                std::mem::swap(&mut entries, &mut self.entries);
                entries.set(i, (key, amount));
                self.entries = entries;
                proof {
                    let after = *self;
                    assert forall|j: int| 0 <= j < after.count() && j != i implies after.key_at(j)
                        == before.key_at(j) && after.amount_at(j) == before.amount_at(j) by {}
                    assert(after.keys_distinct());
                    key_position_unique(after, k, i as int);
                    assert forall|k2: Seq<u8>| after.has_entry(k2) == (before.has_entry(k2) || k2 == k) by {
                        if before.has_entry(k2) {
                            let j = before.position_of(k2);
                            assert(after.key_at(j) == k2);
                        }
                        if after.has_entry(k2) && k2 != k {
                            let j = after.position_of(k2);
                            assert(before.key_at(j) == k2);
                        }
                    }
                    assert forall|k2: Seq<u8>| after.has_entry(k2) && k2 != k implies
                        after.amount_at(after.position_of(k2)) == before.amount_at(before.position_of(k2)) by {
                        let j = after.position_of(k2);
                        assert(before.key_at(j) == k2);
                        key_position_unique(before, k2, j);
                    }
                    assert(after@ =~= before@.insert(k, amount));
                }
            },
            None => {
                let mut entries: Vec<(AddressKey, i128)> = Vec::new();
                std::mem::swap(&mut entries, &mut self.entries);
                entries.push((key, amount));
                proof {
                    let n = before.count() as int;
                    assert forall|a: int, c: int|
                        0 <= a < entries@.len() && 0 <= c < entries@.len() && a != c implies
                        entries@[a].0@ != entries@[c].0@ by {
                        if a < n && c < n {
                            assert(before.key_at(a) == entries@[a].0@);
                            assert(before.key_at(c) == entries@[c].0@);
                        } else if a == n {
                            assert(before.key_at(c) == entries@[c].0@);
                        } else {
                            assert(before.key_at(a) == entries@[a].0@);
                        }
                    }
                }
                self.entries = entries;
                proof {
                    let after = *self;
                    let n = before.count() as int;
                    assert forall|j: int| 0 <= j < n implies after.key_at(j) == before.key_at(j)
                        && after.amount_at(j) == before.amount_at(j) by {}
                    assert(after.key_at(n) == k);
                    assert(after.keys_distinct());
                    key_position_unique(after, k, n);
                    assert forall|k2: Seq<u8>| after.has_entry(k2) == (before.has_entry(k2) || k2 == k) by {
                        if before.has_entry(k2) {
                            let j = before.position_of(k2);
                            assert(after.key_at(j) == k2);
                        }
                        if after.has_entry(k2) && k2 != k {
                            let j = after.position_of(k2);
                            assert(j != n);
                            assert(before.key_at(j) == k2);
                        }
                    }
                    assert forall|k2: Seq<u8>| after.has_entry(k2) && k2 != k implies
                        after.amount_at(after.position_of(k2)) == before.amount_at(before.position_of(k2)) by {
                        let j = after.position_of(k2);
                        assert(j != n);
                        assert(before.key_at(j) == k2);
                        key_position_unique(before, k2, j);
                    }
                    assert(after@ =~= before@.insert(k, amount));
                }
            },
        }
    }
}

/// The entry of a key sits at the one position that holds that key.
proof fn key_position_unique(b: Balances, key: Seq<u8>, i: int)
    requires
        b.keys_distinct(),
        0 <= i < b.count(),
        b.key_at(i) == key,
    ensures
        b.has_entry(key),
        b.position_of(key) == i,
        b@.contains_key(key),
        b@[key] == b.amount_at(i),
{
    assert(b.has_entry(key));
    let j = b.position_of(key);
    assert(b.key_at(j) == key);
}

} // verus!
