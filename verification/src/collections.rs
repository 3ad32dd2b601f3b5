//! Small verified collections keyed by strings: a set of ids and an
//! association map, both with unique keys and exact membership contracts.

use vstd::prelude::*;

use crate::text::str_eq;

verus! {

/// A set of strings, held as a vector with pairwise distinct contents.
#[derive(Clone, Debug)]
pub struct StringSet {
    pub elems: Vec<String>,
}

impl StringSet {
    /// Pairwise distinct contents.
    pub open spec fn wf(&self) -> bool {
        forall|i: int, j: int| 0 <= i < j < self.elems@.len() ==> (#[trigger] self.elems@[i]@)
            != (#[trigger] self.elems@[j]@)
    }

    /// Whether the characters `x` are an element.
    pub open spec fn spec_contains(&self, x: Seq<char>) -> bool {
        exists|i: int| 0 <= i < self.elems@.len() && (#[trigger] self.elems@[i]@) == x
    }

    /// The empty set.
    pub fn new() -> (r: Self)
        ensures
            r.wf(),
            r.elems@.len() == 0,
            forall|x: Seq<char>| !r.spec_contains(x),
    {
        StringSet { elems: Vec::new() }
    }

    /// The number of elements.
    pub fn len(&self) -> (r: usize)
        ensures
            r == self.elems@.len(),
    {
        self.elems.len()
    }

    /// Whether the set is empty.
    pub fn is_empty(&self) -> (r: bool)
        ensures
            r == (self.elems@.len() == 0),
    {
        self.elems.len() == 0
    }

    /// The index of `x`, when present.
    fn index_of(&self, x: &str) -> (r: Option<usize>)
        ensures
            match r {
                Some(i) => i < self.elems@.len() && self.elems@[i as int]@ == x@,
                None => !self.spec_contains(x@),
            },
    {
        let mut i: usize = 0;
        while i < self.elems.len()
            invariant
                i <= self.elems@.len(),
                forall|k: int| 0 <= k < i ==> (#[trigger] self.elems@[k]@) != x@,
            decreases self.elems@.len() - i,
        {
            if str_eq(self.elems[i].as_str(), x) {
                return Some(i);
            }
            i += 1;
        }
        None
    }

    /// Whether `x` is an element.
    pub fn contains(&self, x: &str) -> (r: bool)
        ensures
            r == self.spec_contains(x@),
    {
        self.index_of(x).is_some()
    }

    /// Add `x`; nothing changes when it is already present.
    pub fn insert(&mut self, x: String)
        requires
            old(self).wf(),
        ensures
            final(self).wf(),
            final(self).spec_contains(x@),
            forall|z: Seq<char>| #[trigger] final(self).spec_contains(z) <==> (old(
                self,
            ).spec_contains(z) || z == x@),
            old(self).spec_contains(x@) ==> final(self).elems@ == old(self).elems@,
            !old(self).spec_contains(x@) ==> final(self).elems@ == old(self).elems@.push(x),
    {
        match self.index_of(x.as_str()) {
            Some(i) => {
                proof {
                    assert(self.elems@[i as int]@ == x@);
                }
            },
            None => {
                let ghost pre = self.elems@;
                self.elems.push(x);
                proof {
                    let post = self.elems@;
                    let n = post.len() - 1;
                    assert(post[n]@ == x@);
                    assert forall|a: int, b: int| 0 <= a < b < post.len() implies (
                    #[trigger] post[a]@) != (#[trigger] post[b]@) by {
                        if b < n {
                            assert(pre[a]@ != pre[b]@);
                        } else {
                            assert(post[a]@ == pre[a]@);
                        }
                    }
                    assert forall|z: Seq<char>| #[trigger] self.spec_contains(z) implies (old(
                        self,
                    ).spec_contains(z) || z == x@) by {
                        let j = choose|j: int| 0 <= j < post.len() && (#[trigger] post[j]@) == z;
                        if j < n {
                            assert(pre[j]@ == z);
                        }
                    }
                    assert forall|z: Seq<char>| (old(self).spec_contains(z) || z == x@)
                        implies #[trigger] self.spec_contains(z) by {
                        if z == x@ {
                            assert(post[n]@ == z);
                        } else {
                            let j = choose|j: int| 0 <= j < pre.len() && (#[trigger] pre[j]@) == z;
                            assert(post[j]@ == z);
                        }
                    }
                }
            },
        }
    }

    /// Remove `x`, when present; the order of the rest is kept.
    pub fn remove(&mut self, x: &str)
        requires
            old(self).wf(),
        ensures
            final(self).wf(),
            !final(self).spec_contains(x@),
            forall|z: Seq<char>| #[trigger] final(self).spec_contains(z) <==> (old(
                self,
            ).spec_contains(z) && z != x@),
            final(self).elems@.len() == old(self).elems@.len() - (if old(self).spec_contains(x@) {
                1int
            } else {
                0int
            }),
    {
        match self.index_of(x) {
            Some(i) => {
                let ghost pre = self.elems@;
                self.elems.remove(i);
                proof {
                    assert forall|z: Seq<char>| #[trigger] self.spec_contains(z) implies (exists|
                        k: int,
                    | 0 <= k < pre.len() && pre[k]@ == z && k != i) by {
                        let j = choose|j: int| 0 <= j < self.elems@.len() && self.elems@[j]@ == z;
                        if j < i {
                            assert(pre[j]@ == z);
                        } else {
                            assert(pre[j + 1]@ == z);
                        }
                    }
                    assert forall|z: Seq<char>|
                        (exists|k: int| 0 <= k < pre.len() && (#[trigger] pre[k]@) == z && k != i)
                        implies self.spec_contains(z) by {
                        let k = choose|k: int| 0 <= k < pre.len() && pre[k]@ == z && k != i;
                        if k < i {
                            assert(self.elems@[k]@ == z);
                        } else {
                            assert(self.elems@[k - 1]@ == z);
                        }
                    }
                }
            },
            None => {},
        }
    }

    /// The element at an index, for iteration.
    pub fn at(&self, i: usize) -> (r: &String)
        requires
            i < self.elems@.len(),
        ensures
            r == self.elems@[i as int],
    {
        &self.elems[i]
    }
}

/// An association map from strings to values, held as a vector of pairs
/// with pairwise distinct keys.
#[derive(Clone, Debug)]
pub struct StringMap<V> {
    pub entries: Vec<(String, V)>,
}

impl<V> StringMap<V> {
    /// Pairwise distinct keys.
    pub open spec fn wf(&self) -> bool {
        forall|i: int, j: int| 0 <= i < j < self.entries@.len() ==> (#[trigger] self.entries@[
            i
        ].0@) != (#[trigger] self.entries@[j].0@)
    }

    /// The value bound to the characters `k`: the first binding, if any.
    pub open spec fn spec_get(&self, k: Seq<char>) -> Option<V> {
        if exists|i: int| 0 <= i < self.entries@.len() && (#[trigger] self.entries@[i].0@) == k {
            Some(
                self.entries@[
                    choose|i: int| 0 <= i < self.entries@.len() && (#[trigger] self.entries@[
                        i
                    ].0@) == k
                ].1,
            )
        } else {
            None
        }
    }

    /// Whether the characters `k` are a key.
    pub open spec fn spec_contains_key(&self, k: Seq<char>) -> bool {
        exists|i: int| 0 <= i < self.entries@.len() && (#[trigger] self.entries@[i].0@) == k
    }

    /// The empty map.
    pub fn new() -> (r: Self)
        ensures
            r.wf(),
            r.entries@.len() == 0,
            forall|k: Seq<char>| !r.spec_contains_key(k),
    {
        StringMap { entries: Vec::new() }
    }

    /// The number of bindings.
    pub fn len(&self) -> (r: usize)
        ensures
            r == self.entries@.len(),
    {
        self.entries.len()
    }

    /// Whether the map is empty.
    pub fn is_empty(&self) -> (r: bool)
        ensures
            r == (self.entries@.len() == 0),
    {
        self.entries.len() == 0
    }

    /// The index of the binding of `k`, when present.
    fn index_of(&self, k: &str) -> (r: Option<usize>)
        ensures
            match r {
                Some(i) => i < self.entries@.len() && self.entries@[i as int].0@ == k@,
                None => !self.spec_contains_key(k@),
            },
    {
        let mut i: usize = 0;
        while i < self.entries.len()
            invariant
                i <= self.entries@.len(),
                forall|j: int| 0 <= j < i ==> (#[trigger] self.entries@[j].0@) != k@,
            decreases self.entries@.len() - i,
        {
            if str_eq(self.entries[i].0.as_str(), k) {
                return Some(i);
            }
            i += 1;
        }
        None
    }

    /// Whether `k` is a key.
    pub fn contains_key(&self, k: &str) -> (r: bool)
        ensures
            r == self.spec_contains_key(k@),
    {
        self.index_of(k).is_some()
    }

    /// The value bound to `k`, when present.
    pub fn get(&self, k: &str) -> (r: Option<&V>)
        requires
            self.wf(),
        ensures
            match r {
                Some(v) => self.spec_get(k@) == Some(*v),
                None => self.spec_get(k@) is None,
            },
    {
        match self.index_of(k) {
            Some(i) => {
                proof {
                    let w = choose|j: int| 0 <= j < self.entries@.len() && (
                    #[trigger] self.entries@[j].0@) == k@;
                    assert(w == i);
                }
                Some(&self.entries[i].1)
            },
            None => None,
        }
    }

    /// Bind `k` to `v`, replacing any earlier binding.
    pub fn insert(&mut self, k: String, v: V)
        requires
            old(self).wf(),
        ensures
            final(self).wf(),
            final(self).spec_get(k@) == Some(v),
            forall|z: Seq<char>| z != k@ ==> #[trigger] final(self).spec_get(z) == old(
                self,
            ).spec_get(z),
            forall|z: Seq<char>| #[trigger] final(self).spec_contains_key(z) <==> (old(
                self,
            ).spec_contains_key(z) || z == k@),
            final(self).entries@.len() == old(self).entries@.len() + (if old(
                self,
            ).spec_contains_key(k@) {
                0int
            } else {
                1int
            }),
            !old(self).spec_contains_key(k@) ==> final(self).entries@.drop_last() == old(
                self,
            ).entries@ && final(self).entries@.last().0 == k && final(self).entries@.last().1 == v,
    {
        match self.index_of(k.as_str()) {
            Some(i) => {
                let ghost pre = self.entries@;
                let slot = &mut self.entries[i];
                *slot = (k, v);
                proof {
                    let post = self.entries@;
                    assert(post =~= pre.update(i as int, post[i as int]));
                    assert forall|a: int, b: int| 0 <= a < b < post.len() implies (
                    #[trigger] post[a].0@) != (#[trigger] post[b].0@) by {
                        assert(pre[a].0@ != pre[b].0@);
                    }
                    let w = choose|j: int| 0 <= j < post.len() && (#[trigger] post[j].0@) == k@;
                    assert(post[i as int].0@ == k@);
                    assert(w == i);
                    assert forall|z: Seq<char>| z != k@ implies #[trigger] self.spec_get(z) == old(
                        self,
                    ).spec_get(z) by {
                        if self.spec_contains_key(z) {
                            let a = choose|a: int| 0 <= a < post.len() && (#[trigger] post[a].0@)
                                == z;
                            assert(a != i);
                            assert(pre[a].0@ == z);
                            let b = choose|b: int| 0 <= b < pre.len() && (#[trigger] pre[b].0@)
                                == z;
                            assert(b == a);
                        } else if old(self).spec_contains_key(z) {
                            let b = choose|b: int| 0 <= b < pre.len() && (#[trigger] pre[b].0@)
                                == z;
                            assert(b != i);
                            assert(post[b].0@ == z);
                        }
                    }
                    assert forall|z: Seq<char>| #[trigger] self.spec_contains_key(z) implies (old(
                        self,
                    ).spec_contains_key(z) || z == k@) by {
                        let a = choose|a: int| 0 <= a < post.len() && (#[trigger] post[a].0@) == z;
                        if a != i {
                            assert(pre[a].0@ == z);
                        }
                    }
                    assert forall|z: Seq<char>| (old(self).spec_contains_key(z) || z == k@)
                        implies #[trigger] self.spec_contains_key(z) by {
                        if z == k@ {
                            assert(post[i as int].0@ == z);
                        } else {
                            let b = choose|b: int| 0 <= b < pre.len() && (#[trigger] pre[b].0@)
                                == z;
                            assert(post[b].0@ == z);
                        }
                    }
                }
            },
            None => {
                self.entries.push((k, v));
                proof {
                    assert(self.entries@.drop_last() =~= old(self).entries@);
                    let n = self.entries@.len() - 1;
                    assert(self.entries@[n].0@ == k@);
                    assert forall|z: Seq<char>| z != k@ implies #[trigger] self.spec_get(z) == old(
                        self,
                    ).spec_get(z) by {
                        if self.spec_contains_key(z) {
                            let i = choose|i: int| 0 <= i < self.entries@.len() && (
                            #[trigger] self.entries@[i].0@) == z;
                            assert(i < n);
                            assert(old(self).entries@[i].0@ == z);
                            let w = choose|j: int| 0 <= j < old(self).entries@.len() && (
                            #[trigger] old(self).entries@[j].0@) == z;
                            assert(w == i);
                        } else {
                            if old(self).spec_contains_key(z) {
                                let i = choose|i: int| 0 <= i < old(self).entries@.len() && (
                                #[trigger] old(self).entries@[i].0@) == z;
                                assert(self.entries@[i].0@ == z);
                            }
                        }
                    }
                }
            },
        }
    }

    /// Remove the binding of `k`, when present; the order of the rest is
    /// kept.
    pub fn remove(&mut self, k: &str)
        requires
            old(self).wf(),
        ensures
            final(self).wf(),
            final(self).spec_get(k@) is None,
            forall|z: Seq<char>| z != k@ ==> #[trigger] final(self).spec_get(z) == old(
                self,
            ).spec_get(z),
            forall|z: Seq<char>| #[trigger] final(self).spec_contains_key(z) <==> (old(
                self,
            ).spec_contains_key(z) && z != k@),
            final(self).entries@.len() == old(self).entries@.len() - (if old(
                self,
            ).spec_contains_key(k@) {
                1int
            } else {
                0int
            }),
            !old(self).spec_contains_key(k@) ==> final(self).entries@ == old(self).entries@,
    {
        match self.index_of(k) {
            Some(i) => {
                let ghost pre = self.entries@;
                self.entries.remove(i);
                proof {
                    lemma_unique_remove(pre, self.entries@, i as int, k@);
                    let post = self.entries@;
                    assert forall|z: Seq<char>| z != k@ implies #[trigger] self.spec_get(z) == old(
                        self,
                    ).spec_get(z) by {
                        if self.spec_contains_key(z) {
                            let a = choose|a: int| 0 <= a < post.len() && (#[trigger] post[a].0@)
                                == z;
                            let pa: int = if a < i { a } else { a + 1 };
                            assert(post[a] == pre[pa]);
                            assert(pre[pa].0@ == z);
                            let b = choose|b: int| 0 <= b < pre.len() && (#[trigger] pre[b].0@)
                                == z;
                            assert(b == pa);
                            assert(self.spec_get(z) == Some(post[a].1));
                            assert(old(self).spec_get(z) == Some(pre[pa].1));
                        } else {
                            if old(self).spec_contains_key(z) {
                                let b = choose|b: int| 0 <= b < pre.len() && (#[trigger] pre[b].0@)
                                    == z;
                                assert(b != i);
                                let a: int = if b < i { b } else { b - 1 };
                                assert(post[a] == pre[b]);
                                assert(post[a].0@ == z);
                            }
                        }
                    }
                    assert forall|z: Seq<char>| #[trigger] self.spec_contains_key(z) implies (old(
                        self,
                    ).spec_contains_key(z) && z != k@) by {
                        let a = choose|a: int| 0 <= a < post.len() && (#[trigger] post[a].0@) == z;
                        let pa: int = if a < i { a } else { a + 1 };
                        assert(post[a] == pre[pa]);
                        assert(pre[pa].0@ == z);
                    }
                    assert forall|z: Seq<char>| (old(self).spec_contains_key(z) && z != k@)
                        implies #[trigger] self.spec_contains_key(z) by {
                        let b = choose|b: int| 0 <= b < pre.len() && (#[trigger] pre[b].0@) == z;
                        assert(b != i);
                        let a: int = if b < i { b } else { b - 1 };
                        assert(post[a] == pre[b]);
                        assert(post[a].0@ == z);
                    }
                }
            },
            None => {},
        }
    }

    /// The binding at an index, for iteration.
    pub fn at(&self, i: usize) -> (r: &(String, V))
        requires
            i < self.entries@.len(),
        ensures
            r == self.entries@[i as int],
    {
        &self.entries[i]
    }
}

/// After removing index `i` (whose key was `k`) from a unique-keyed pair
/// sequence, the other bindings keep their values and `k` is gone.
proof fn lemma_unique_remove<V>(pre: Seq<(String, V)>, post: Seq<(String, V)>, i: int, k: Seq<char>)
    requires
        0 <= i < pre.len(),
        post == pre.remove(i),
        pre[i].0@ == k,
        forall|a: int, b: int| 0 <= a < b < pre.len() ==> (#[trigger] pre[a].0@) != (#[trigger] pre[
            b
        ].0@),
    ensures
        forall|a: int, b: int| 0 <= a < b < post.len() ==> (#[trigger] post[a].0@) != (
        #[trigger] post[b].0@),
        forall|w: int| 0 <= w < post.len() ==> (#[trigger] post[w].0@) != k,
{
    assert forall|w: int| 0 <= w < post.len() implies (#[trigger] post[w].0@) != k by {
        if w < i {
            assert(post[w] == pre[w]);
        } else {
            assert(post[w] == pre[w + 1]);
        }
    }
    assert forall|a: int, b: int| 0 <= a < b < post.len() implies (#[trigger] post[a].0@) != (
    #[trigger] post[b].0@) by {
        let pa = if a < i { a } else { a + 1 };
        let pb = if b < i { b } else { b + 1 };
        assert(post[a] == pre[pa]);
        assert(post[b] == pre[pb]);
    }
}

} // verus!
