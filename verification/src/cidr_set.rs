//! A finite set of network prefixes, kept in the order in which they were added.

use crate::cidr::Cidr;
use vstd::prelude::*;

verus! {

/// The members of `s`, each once, in the order of their first occurrence.
pub open spec fn unique(s: Seq<Cidr>) -> Seq<Cidr>
    decreases s.len(),
{
    if s.len() == 0 {
        Seq::empty()
    } else {
        let before = unique(s.drop_last());
        if before.contains(s.last()) {
            before
        } else {
            before.push(s.last())
        }
    }
}

/// The members of `s` that are not in `other`, in the order of `s`.
pub open spec fn without(s: Seq<Cidr>, other: Set<Cidr>) -> Seq<Cidr>
    decreases s.len(),
{
    if s.len() == 0 {
        Seq::empty()
    } else {
        let before = without(s.drop_last(), other);
        if other.contains(s.last()) {
            before
        } else {
            before.push(s.last())
        }
    }
}

/// `unique(s)` has the members of `s` and holds none of them twice.
pub proof fn lemma_unique(s: Seq<Cidr>)
    ensures
        unique(s).no_duplicates(),
        unique(s).to_set() == s.to_set(),
        unique(s).len() <= s.len(),
    decreases s.len(),
{
    if s.len() == 0 {
        assert(unique(s).to_set() =~= s.to_set());
    } else {
        let init = s.drop_last();
        lemma_unique(init);
        let before = unique(init);
        assert forall|c: Cidr| unique(s).to_set().contains(c) <==> s.to_set().contains(c) by {
            if s.contains(c) {
                let i = choose|i: int| 0 <= i < s.len() && s[i] == c;
                if i < s.len() - 1 {
                    assert(init[i] == c);
                    assert(init.to_set().contains(c));
                    assert(before.to_set().contains(c));
                    let j = choose|j: int| 0 <= j < before.len() && before[j] == c;
                    assert(unique(s)[j] == c);
                } else {
                    if before.contains(c) {
                    } else {
                        assert(unique(s)[before.len() as int] == c);
                    }
                }
            }
            if unique(s).contains(c) {
                let j = choose|j: int| 0 <= j < unique(s).len() && unique(s)[j] == c;
                if j < before.len() {
                    assert(before[j] == c);
                    assert(before.to_set().contains(c));
                    assert(init.to_set().contains(c));
                    let i = choose|i: int| 0 <= i < init.len() && init[i] == c;
                    assert(s[i] == c);
                } else {
                    assert(s[s.len() - 1] == c);
                }
            }
        }
        assert(unique(s).to_set() =~= s.to_set());
    }
}

/// `without(s, other)` has the members of `s` outside `other`, and repeats none if
/// `s` repeats none.
pub proof fn lemma_without(s: Seq<Cidr>, other: Set<Cidr>)
    ensures
        without(s, other).to_set() == s.to_set().difference(other),
        s.no_duplicates() ==> without(s, other).no_duplicates(),
        without(s, other).len() <= s.len(),
    decreases s.len(),
{
    if s.len() == 0 {
        assert(without(s, other).to_set() =~= s.to_set().difference(other));
    } else {
        let init = s.drop_last();
        lemma_without(init, other);
        let before = without(init, other);
        let out = without(s, other);
        assert forall|c: Cidr| out.to_set().contains(c) <==> s.to_set().difference(
            other,
        ).contains(c) by {
            if s.contains(c) && !other.contains(c) {
                let i = choose|i: int| 0 <= i < s.len() && s[i] == c;
                if i < s.len() - 1 {
                    assert(init[i] == c);
                    assert(init.to_set().difference(other).contains(c));
                    assert(before.to_set().contains(c));
                    let j = choose|j: int| 0 <= j < before.len() && before[j] == c;
                    assert(out[j] == c);
                } else {
                    assert(out[before.len() as int] == c);
                }
            }
            if out.contains(c) {
                let j = choose|j: int| 0 <= j < out.len() && out[j] == c;
                if j < before.len() {
                    assert(before[j] == c);
                    assert(before.to_set().contains(c));
                    assert(init.to_set().difference(other).contains(c));
                    let i = choose|i: int| 0 <= i < init.len() && init[i] == c;
                    assert(s[i] == c);
                } else {
                    assert(s[s.len() - 1] == c);
                }
            }
        }
        assert(out.to_set() =~= s.to_set().difference(other));
        if s.no_duplicates() {
            assert(init.no_duplicates());
            if !other.contains(s.last()) {
                assert forall|i: int, j: int|
                    0 <= i < out.len() && 0 <= j < out.len() && i != j implies out[i] != out[j] by {
                    if i == before.len() || j == before.len() {
                        let k = if i == before.len() {
                            j
                        } else {
                            i
                        };
                        assert(before.to_set().contains(before[k]));
                        assert(init.to_set().contains(before[k]));
                        let m = choose|m: int| 0 <= m < init.len() && init[m] == before[k];
                        assert(s[m] == before[k]);
                        assert(s[s.len() - 1] == s.last());
                    }
                }
            }
        }
    }
}

/// A finite set of prefixes.
///
/// The members are held in the order in which they were added, and none is held twice.
#[derive(Debug)]
pub struct CidrSet {
    items: Vec<Cidr>,
}

impl View for CidrSet {
    type V = Set<Cidr>;

    closed spec fn view(&self) -> Set<Cidr> {
        self.items@.to_set()
    }
}

impl CidrSet {
    /// The members in the order in which they were added.
    pub closed spec fn elements(&self) -> Seq<Cidr> {
        self.items@
    }

    /// No member is held twice, and every member is a valid prefix.
    pub closed spec fn wf(&self) -> bool {
        &&& self.items@.no_duplicates()
        &&& forall|i: int| 0 <= i < self.items@.len() ==> (#[trigger] self.items@[i]).wf()
    }

    /// The set of the members is the view, and it has as many members as the sequence.
    pub proof fn lemma_elements(&self)
        requires
            self.wf(),
        ensures
            self.elements().no_duplicates(),
            self.elements().to_set() == self@,
            self@.finite(),
            self@.len() == self.elements().len(),
            forall|i: int| 0 <= i < self.elements().len() ==> (#[trigger] self.elements()[i]).wf(),
            forall|net: Cidr| self@.contains(net) ==> net.wf(),
    {
        self.items@.unique_seq_to_set();
        vstd::seq_lib::seq_to_set_is_finite(self.items@);
    }

    /// The empty set.
    pub fn new() -> (set: CidrSet)
        ensures
            set.wf(),
            set@ == Set::<Cidr>::empty(),
            set.elements() == Seq::<Cidr>::empty(),
    {
        let set = CidrSet { items: Vec::new() };
        assert(set.items@.to_set() =~= Set::<Cidr>::empty());
        set
    }

    /// The set of the prefixes in `items`; one that occurs twice is a member once.
    pub fn from_slice(items: &[Cidr]) -> (set: CidrSet)
        requires
            forall|i: int| 0 <= i < items@.len() ==> (#[trigger] items@[i]).wf(),
        ensures
            set.wf(),
            set@ == items@.to_set(),
            set.elements() == unique(items@),
    {
        let mut set = CidrSet::new();
        let mut i: usize = 0;
        while i < items.len()
            invariant
                i <= items.len(),
                set.wf(),
                set.items@ == unique(items@.take(i as int)),
                forall|i: int| 0 <= i < items@.len() ==> (#[trigger] items@[i]).wf(),
            decreases items.len() - i,
        {
            proof {
                assert(items@.take(i + 1).drop_last() =~= items@.take(i as int));
                assert(items@.take(i + 1).last() == items@[i as int]);
            }
            set.insert(items[i]);
            i += 1;
        }
        proof {
            assert(items@.take(i as int) =~= items@);
            lemma_unique(items@);
        }
        set
    }

    /// How many prefixes the set holds.
    pub fn len(&self) -> (n: usize)
        requires
            self.wf(),
        ensures
            n == self@.len(),
            n == self.elements().len(),
    {
        proof {
            self.lemma_elements();
        }
        self.items.len()
    }

    /// Whether the set holds no prefix.
    pub fn is_empty(&self) -> (empty: bool)
        ensures
            empty == (self@ == Set::<Cidr>::empty()),
            empty == (self.elements().len() == 0),
    {
        proof {
            if self.items@.len() == 0 {
                assert(self.items@.to_set() =~= Set::<Cidr>::empty());
            } else {
                assert(self.items@.to_set().contains(self.items@[0]));
            }
        }
        self.items.len() == 0
    }

    /// Whether `net` is a member.
    pub fn contains(&self, net: &Cidr) -> (found: bool)
        ensures
            found == self@.contains(*net),
            found == self.elements().contains(*net),
    {
        let mut i: usize = 0;
        while i < self.items.len()
            invariant
                i <= self.items.len(),
                forall|j: int| 0 <= j < i ==> self.items@[j] != *net,
            decreases self.items.len() - i,
        {
            if self.items[i] == *net {
                return true;
            }
            i += 1;
        }
        false
    }

    /// Adds `net`; returns whether it was not a member before.
    pub fn insert(&mut self, net: Cidr) -> (added: bool)
        requires
            old(self).wf(),
            net.wf(),
        ensures
            final(self).wf(),
            final(self)@ == old(self)@.insert(net),
            added == !old(self)@.contains(net),
            final(self).elements() == if added {
                old(self).elements().push(net)
            } else {
                old(self).elements()
            },
    {
        if self.contains(&net) {
            assert(self.items@.to_set() =~= self.items@.to_set().insert(net));
            false
        } else {
            let ghost before = self.items@;
            self.items.push(net);
            proof {
                assert(self.items@.to_set() =~= before.to_set().insert(net)) by {
                    assert forall|c: Cidr| self.items@.to_set().contains(c) <==> before.to_set().insert(
                        net,
                    ).contains(c) by {
                        if before.contains(c) {
                            let i = choose|i: int| 0 <= i < before.len() && before[i] == c;
                            assert(self.items@[i] == c);
                        }
                        if c == net {
                            assert(self.items@[before.len() as int] == c);
                        }
                    }
                }
            }
            true
        }
    }

    /// The members, in the order in which they were added.
    pub fn to_vec(&self) -> (v: Vec<Cidr>)
        ensures
            v@ == self.elements(),
    {
        let mut v: Vec<Cidr> = Vec::new();
        let mut i: usize = 0;
        while i < self.items.len()
            invariant
                i <= self.items.len(),
                v@ == self.items@.take(i as int),
            decreases self.items.len() - i,
        {
            v.push(self.items[i]);
            assert(v@ =~= self.items@.take(i + 1));
            i += 1;
        }
        assert(self.items@.take(i as int) =~= self.items@);
        v
    }

    /// The members that `other` does not hold.
    pub fn difference(&self, other: &CidrSet) -> (rest: CidrSet)
        requires
            self.wf(),
        ensures
            rest.wf(),
            rest@ == self@.difference(other@),
            rest.elements() == without(self.elements(), other@),
    {
        let mut rest = CidrSet { items: Vec::new() };
        let mut i: usize = 0;
        while i < self.items.len()
            invariant
                i <= self.items.len(),
                self.wf(),
                rest.items@ == without(self.items@.take(i as int), other@),
                forall|j: int| 0 <= j < rest.items@.len() ==> (#[trigger] rest.items@[j]).wf(),
            decreases self.items.len() - i,
        {
            proof {
                assert(self.items@.take(i + 1).drop_last() =~= self.items@.take(i as int));
                assert(self.items@.take(i + 1).last() == self.items@[i as int]);
            }
            if !other.contains(&self.items[i]) {
                rest.items.push(self.items[i]);
            }
            i += 1;
        }
        proof {
            assert(self.items@.take(i as int) =~= self.items@);
            lemma_without(self.items@, other@);
        }
        rest
    }
}

} // verus!
