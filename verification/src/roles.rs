//! The set of admin wallets.

use crate::text::texts_view;
use vstd::prelude::*;

verus! {

/// A set of wallet addresses. No address is held twice.
#[derive(Debug, PartialEq, Eq)]
pub struct AdminSet {
    wallets: Vec<String>,
}

impl View for AdminSet {
    type V = Set<Seq<char>>;

    closed spec fn view(&self) -> Set<Seq<char>> {
        texts_view(self.wallets@).to_set()
    }
}

impl AdminSet {
    #[verifier::type_invariant]
    spec fn distinct(self) -> bool {
        texts_view(self.wallets@).no_duplicates()
    }

    /// The empty set.
    pub fn new() -> (set: AdminSet)
        ensures
            set@ == Set::<Seq<char>>::empty(),
    {
        let wallets: Vec<String> = Vec::new();
        assert(texts_view(wallets@) =~= Seq::<Seq<char>>::empty());
        let set = AdminSet { wallets };
        assert(set@ =~= Set::<Seq<char>>::empty());
        set
    }

    fn position(&self, address: &String) -> (at: Option<usize>)
        ensures
            match at {
                Some(i) => i < self.wallets@.len() && texts_view(self.wallets@)[i as int]
                    == address@,
                None => !texts_view(self.wallets@).contains(address@),
            },
    {
        let mut i: usize = 0;
        while i < self.wallets.len()
            invariant
                i <= self.wallets@.len(),
                forall|k: int| 0 <= k < i ==> (#[trigger] texts_view(self.wallets@)[k]) != address@,
            decreases self.wallets@.len() - i,
        {
            if self.wallets[i] == *address {
                return Some(i);
            }
            i += 1;
        }
        None
    }

    /// Whether `address` is in the set.
    pub fn contains(&self, address: &String) -> (found: bool)
        ensures
            found == self@.contains(address@),
    {
        self.position(address).is_some()
    }

    /// Adds `address`; answers whether it was absent before.
    pub fn insert(&mut self, address: String) -> (added: bool)
        ensures
            final(self)@ == old(self)@.insert(address@),
            added == !old(self)@.contains(address@),
    {
        proof {
            use_type_invariant(&*self);
        }
        let ghost before = texts_view(self.wallets@);
        match self.position(&address) {
            Some(_) => {
                assert(before.to_set().insert(address@) =~= before.to_set());
                false
            },
            None => {
                let mut wallets: Vec<String> = Vec::new();
                std::mem::swap(&mut self.wallets, &mut wallets);
                wallets.push(address);
                assert(texts_view(wallets@) =~= before.push(address@));
                assert(before.push(address@).to_set() =~= before.to_set().insert(address@)) by {
                    lemma_push_to_set(before, address@);
                }
                self.wallets = wallets;
                true
            },
        }
    }

    /// Takes `address` out; answers whether it was present before.
    pub fn remove(&mut self, address: &String) -> (removed: bool)
        ensures
            final(self)@ == old(self)@.remove(address@),
            removed == old(self)@.contains(address@),
    {
        proof {
            use_type_invariant(&*self);
        }
        let ghost before = texts_view(self.wallets@);
        match self.position(address) {
            Some(i) => {
                let mut wallets: Vec<String> = Vec::new();
                std::mem::swap(&mut self.wallets, &mut wallets);
                wallets.remove(i);
                assert(texts_view(wallets@) =~= before.remove(i as int));
                assert(before.remove(i as int).no_duplicates() && before.remove(
                    i as int,
                ).to_set() =~= before.to_set().remove(address@)) by {
                    lemma_remove_to_set(before, i as int);
                }
                self.wallets = wallets;
                true
            },
            None => {
                assert(before.to_set().remove(address@) =~= before.to_set());
                false
            },
        }
    }

    /// A copy with the same value.
    pub fn duplicate(&self) -> (copy: AdminSet)
        ensures
            copy@ == self@,
    {
        AdminSet { wallets: self.to_vec() }
    }

    /// The addresses of the set, each once.
    pub fn to_vec(&self) -> (list: Vec<String>)
        ensures
            texts_view(list@).to_set() == self@,
            texts_view(list@).no_duplicates(),
    {
        proof {
            use_type_invariant(self);
        }
        let mut list: Vec<String> = Vec::new();
        let mut i: usize = 0;
        while i < self.wallets.len()
            invariant
                i <= self.wallets@.len(),
                list@.len() == i,
                forall|k: int| 0 <= k < i ==> (#[trigger] list@[k])@ == self.wallets@[k]@,
            decreases self.wallets@.len() - i,
        {
            list.push(self.wallets[i].clone());
            i += 1;
        }
        assert(texts_view(list@) =~= texts_view(self.wallets@));
        list
    }
}

/// Appending an element adds it to the set of elements.
pub proof fn lemma_push_to_set<A>(s: Seq<A>, a: A)
    ensures
        s.push(a).to_set() == s.to_set().insert(a),
        s.no_duplicates() && !s.contains(a) ==> s.push(a).no_duplicates(),
{
    assert forall|x: A| s.push(a).to_set().contains(x) <==> s.to_set().insert(a).contains(x) by {
        if s.push(a).contains(x) {
            let k = choose|k: int| 0 <= k < s.push(a).len() && s.push(a)[k] == x;
            if k < s.len() {
                assert(s[k] == x);
            }
        }
        if s.contains(x) {
            let k = choose|k: int| 0 <= k < s.len() && s[k] == x;
            assert(s.push(a)[k] == x);
        }
        if x == a {
            assert(s.push(a)[s.len() as int] == x);
        }
    }
    assert(s.push(a).to_set() =~= s.to_set().insert(a));
    if s.no_duplicates() && !s.contains(a) {
        assert forall|i: int, j: int|
            0 <= i < s.push(a).len() && 0 <= j < s.push(a).len() && i != j implies s.push(a)[i]
            != s.push(a)[j] by {
            if i < s.len() {
                assert(s[i] == s.push(a)[i]);
            }
            if j < s.len() {
                assert(s[j] == s.push(a)[j]);
            }
        }
    }
}

/// Removing the only occurrence of an element takes it out of the set of elements.
pub proof fn lemma_remove_to_set<A>(s: Seq<A>, i: int)
    requires
        s.no_duplicates(),
        0 <= i < s.len(),
    ensures
        s.remove(i).no_duplicates(),
        s.remove(i).to_set() == s.to_set().remove(s[i]),
{
    let r = s.remove(i);
    assert forall|x: A| r.to_set().contains(x) <==> s.to_set().remove(s[i]).contains(x) by {
        if r.contains(x) {
            let k = choose|k: int| 0 <= k < r.len() && r[k] == x;
            if k < i {
                assert(s[k] == x);
            } else {
                assert(s[k + 1] == x);
            }
        }
        if s.contains(x) && x != s[i] {
            let k = choose|k: int| 0 <= k < s.len() && s[k] == x;
            if k < i {
                assert(r[k] == x);
            } else {
                assert(r[k - 1] == x);
            }
        }
    }
    assert(r.to_set() =~= s.to_set().remove(s[i]));
    assert forall|a: int, b: int| 0 <= a < r.len() && 0 <= b < r.len() && a != b implies r[a]
        != r[b] by {
        let a2 = if a < i { a } else { a + 1 };
        let b2 = if b < i { b } else { b + 1 };
        assert(r[a] == s[a2]);
        assert(r[b] == s[b2]);
    }
}

} // verus!
