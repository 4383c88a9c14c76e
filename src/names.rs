//! A set of names held as a vector of strings.
use vstd::prelude::*;

verus! {

/// A set of item or skill names. The vector may be read in any order; only
/// which names it holds matters.
#[derive(Clone, Debug)]
pub struct NameSet {
    pub names: Vec<String>,
}

/// The set of names held by a sequence of strings.
pub open spec fn names_of(v: Seq<String>) -> Set<Seq<char>> {
    Set::new(|n: Seq<char>| exists|i: int| 0 <= i < v.len() && (#[trigger] v[i])@ == n)
}

/// Appending a string adds its characters to the set of names.
pub proof fn lemma_names_push(v: Seq<String>, s: String)
    ensures
        names_of(v.push(s)) == names_of(v).insert(s@),
{
    let w = v.push(s);
    assert forall|n: Seq<char>| names_of(w).contains(n) implies names_of(v).insert(s@).contains(n) by {
        let k = choose|k: int| 0 <= k < w.len() && (#[trigger] w[k])@ == n;
        if k < v.len() {
            assert(v[k] == w[k]);
        }
    }
    assert forall|n: Seq<char>| names_of(v).insert(s@).contains(n) implies names_of(w).contains(n) by {
        if n == s@ {
            assert(w[v.len() as int] == s);
        } else {
            let k = choose|k: int| 0 <= k < v.len() && (#[trigger] v[k])@ == n;
            assert(w[k] == v[k]);
        }
    }
    assert(names_of(w) =~= names_of(v).insert(s@));
}

impl View for NameSet {
    type V = Set<Seq<char>>;

    open spec fn view(&self) -> Set<Seq<char>> {
        names_of(self.names@)
    }
}

impl NameSet {
    /// An empty set.
    pub fn new() -> (r: NameSet)
        ensures
            r@ == Set::<Seq<char>>::empty(),
    {
        let r = NameSet { names: Vec::new() };
        assert(r@ =~= Set::<Seq<char>>::empty());
        r
    }

    /// Whether the set holds `name`.
    pub fn contains(&self, name: &str) -> (r: bool)
        ensures
            r == self@.contains(name@),
    {
        let target = name.to_owned();
        let mut i: usize = 0;
        while i < self.names.len()
            invariant
                i <= self.names.len(),
                target@ == name@,
                forall|j: int| 0 <= j < i ==> (#[trigger] self.names@[j])@ != name@,
            decreases self.names.len() - i,
        {
            if self.names[i] == target {
                return true;
            }
            i = i + 1;
        }
        false
    }

    /// Adds `name` to the set.
    pub fn insert(&mut self, name: &str)
        ensures
            final(self)@ == old(self)@.insert(name@),
    {
        if !self.contains(name) {
            let s = name.to_owned();
            proof {
                lemma_names_push(self.names@, s);
            }
            self.names.push(s);
        } else {
            assert(self@ =~= old(self)@.insert(name@));
        }
    }

    /// Removes `name` from the set.
    pub fn remove(&mut self, name: &str)
        ensures
            final(self)@ == old(self)@.remove(name@),
    {
        let target = name.to_owned();
        let mut kept: Vec<String> = Vec::new();
        let mut i: usize = 0;
        while i < self.names.len()
            invariant
                i <= self.names.len(),
                target@ == name@,
                names_of(kept@) =~= names_of(self.names@.take(i as int)).remove(name@),
            decreases self.names.len() - i,
        {
            let ghost pre = kept@;
            proof {
                assert(self.names@.take(i as int + 1) =~= self.names@.take(i as int).push(self.names@[i as int]));
                lemma_names_push(self.names@.take(i as int), self.names@[i as int]);
            }
            if !(self.names[i] == target) {
                let s = self.names[i].clone();
                proof {
                    lemma_names_push(pre, s);
                }
                kept.push(s);
            }
            i = i + 1;
        }
        assert(self.names@.take(self.names.len() as int) =~= self.names@);
        self.names = kept;
    }
}

} // verus!
