//! A string-keyed association map with a mathematical `Map` view.
//!
//! The resolution engine owns two kinds of keyed data: the environment map
//! it assembles, and the snapshot of backend responses it resolves against.
//! Both are association lists with unique keys, viewed as a
//! `Map<Seq<char>, _>`; later insertions override earlier ones.
use crate::text::str_eq;
use vstd::prelude::*;

verus! {

/// The map denoted by an association list: entries later in the list
/// override earlier ones for the same key.
pub open spec fn assoc_view<V: View>(s: Seq<(String, V)>) -> Map<Seq<char>, V::V>
    decreases s.len(),
{
    if s.len() == 0 {
        Map::empty()
    } else {
        assoc_view(s.drop_last()).insert(s.last().0@, s.last().1@)
    }
}

/// No two entries share a key.
pub open spec fn distinct_keys<V>(s: Seq<(String, V)>) -> bool {
    forall|i: int, j: int| 0 <= i < j < s.len() ==> s[i].0@ != s[j].0@
}

pub proof fn lemma_assoc_view_contains<V: View>(s: Seq<(String, V)>, k: Seq<char>)
    ensures
        assoc_view(s).contains_key(k) <==> exists|i: int| 0 <= i < s.len() && s[i].0@ == k,
    decreases s.len(),
{
    if s.len() == 0 {
    } else {
        lemma_assoc_view_contains(s.drop_last(), k);
        if s.last().0@ == k {
            assert(s[s.len() - 1].0@ == k);
        } else {
            if assoc_view(s).contains_key(k) {
                let i = choose|i: int| 0 <= i < s.drop_last().len() && s.drop_last()[i].0@ == k;
                assert(s[i].0@ == k);
            }
            if exists|i: int| 0 <= i < s.len() && s[i].0@ == k {
                let i = choose|i: int| 0 <= i < s.len() && s[i].0@ == k;
                assert(i < s.len() - 1);
                assert(s.drop_last()[i].0@ == k);
            }
        }
    }
}

pub proof fn lemma_assoc_view_get<V: View>(s: Seq<(String, V)>, i: int)
    requires
        0 <= i < s.len(),
        forall|j: int| i < j < s.len() ==> s[j].0@ != s[i].0@,
    ensures
        assoc_view(s).contains_key(s[i].0@),
        assoc_view(s)[s[i].0@] == s[i].1@,
    decreases s.len(),
{
    if i == s.len() - 1 {
    } else {
        assert(s.drop_last()[i] == s[i]);
        assert(forall|j: int|
            i < j < s.drop_last().len() ==> s.drop_last()[j].0@ != s.drop_last()[i].0@) by {
            assert(forall|j: int| i < j < s.len() - 1 ==> s[j] == s.drop_last()[j]);
        }
        lemma_assoc_view_get(s.drop_last(), i);
        assert(s.last().0@ != s[i].0@);
    }
}

pub proof fn lemma_assoc_view_concat<V: View>(a: Seq<(String, V)>, b: Seq<(String, V)>)
    ensures
        assoc_view(a + b) == assoc_view(a).union_prefer_right(assoc_view(b)),
    decreases b.len(),
{
    if b.len() == 0 {
        assert(a + b =~= a);
        assert(assoc_view(a).union_prefer_right(assoc_view(b)) =~= assoc_view(a));
    } else {
        lemma_assoc_view_concat(a, b.drop_last());
        assert((a + b).drop_last() =~= a + b.drop_last());
        assert((a + b).last() == b.last());
        assert(assoc_view(a).union_prefer_right(assoc_view(b.drop_last())).insert(
            b.last().0@,
            b.last().1@,
        ) =~= assoc_view(a).union_prefer_right(
            assoc_view(b.drop_last()).insert(b.last().0@, b.last().1@),
        ));
    }
}

pub proof fn lemma_assoc_view_remove<V: View>(s: Seq<(String, V)>, i: int)
    requires
        0 <= i < s.len(),
        distinct_keys(s),
    ensures
        assoc_view(s.remove(i)) == assoc_view(s).remove(s[i].0@),
        distinct_keys(s.remove(i)),
    decreases s.len(),
{
    assert forall|p: int, q: int| 0 <= p < q < s.remove(i).len() implies s.remove(i)[p].0@ != s.remove(
        i,
    )[q].0@ by {
        let sp = if p < i { p } else { p + 1 };
        let sq = if q < i { q } else { q + 1 };
        assert(s.remove(i)[p] == s[sp]);
        assert(s.remove(i)[q] == s[sq]);
    }
    if i == s.len() - 1 {
        assert(s.remove(i) =~= s.drop_last());
        lemma_assoc_view_contains(s.drop_last(), s[i].0@);
        assert(forall|j: int| 0 <= j < s.drop_last().len() ==> s.drop_last()[j] == s[j]);
        assert(!assoc_view(s.drop_last()).contains_key(s[i].0@));
        assert(assoc_view(s.drop_last()) =~= assoc_view(s.drop_last()).insert(
            s.last().0@,
            s.last().1@,
        ).remove(s[i].0@));
    } else {
        let s2 = s.drop_last();
        assert(forall|j: int| 0 <= j < s2.len() ==> s2[j] == s[j]);
        lemma_assoc_view_remove(s2, i);
        assert(s.remove(i).drop_last() =~= s2.remove(i));
        assert(s.remove(i).last() == s.last());
        assert(s.last().0@ != s[i].0@);
        assert(assoc_view(s.remove(i)) == assoc_view(s2.remove(i)).insert(
            s.last().0@,
            s.last().1@,
        ));
        assert(assoc_view(s2).remove(s[i].0@).insert(s.last().0@, s.last().1@) =~= assoc_view(
            s2,
        ).insert(s.last().0@, s.last().1@).remove(s[i].0@));
    }
}

/// An association map from variable or storage keys to values, with unique
/// keys and a `Map` view.
pub struct SMap<V> {
    pub pairs: Vec<(String, V)>,
}

impl<V: View> View for SMap<V> {
    type V = Map<Seq<char>, V::V>;

    open spec fn view(&self) -> Map<Seq<char>, V::V> {
        assoc_view(self.pairs@)
    }
}

impl<V: View> SMap<V> {
    /// Unique keys: the well-formedness every operation preserves.
    pub open spec fn wf(&self) -> bool {
        distinct_keys(self.pairs@)
    }

    pub fn new() -> (r: SMap<V>)
        ensures
            r.wf(),
            r@ == Map::<Seq<char>, V::V>::empty(),
            r.pairs@.len() == 0,
    {
        SMap { pairs: Vec::new() }
    }

    /// Looks a key up; `None` exactly when the key is absent.
    pub fn get(&self, key: &str) -> (r: Option<&V>)
        requires
            self.wf(),
        ensures
            match r {
                Some(v) => self@.contains_key(key@) && v@ == self@[key@] && exists|i: int|
                    0 <= i < self.pairs@.len() && self.pairs@[i].1 == *v,
                None => !self@.contains_key(key@),
            },
    {
        let n = self.pairs.len();
        let mut i: usize = 0;
        while i < n
            invariant
                n == self.pairs@.len(),
                i <= n,
                self.wf(),
                forall|j: int| 0 <= j < i ==> self.pairs@[j].0@ != key@,
            decreases n - i,
        {
            if str_eq(self.pairs[i].0.as_str(), key) {
                proof {
                    lemma_assoc_view_get(self.pairs@, i as int);
                }
                return Some(&self.pairs[i].1);
            }
            i += 1;
        }
        proof {
            lemma_assoc_view_contains(self.pairs@, key@);
        }
        None
    }

    /// Inserts a binding, overriding any earlier binding of the same key.
    pub fn insert(&mut self, key: String, value: V)
        requires
            old(self).wf(),
        ensures
            final(self).wf(),
            final(self)@ == old(self)@.insert(key@, value@),
            forall|i: int|
                0 <= i < final(self).pairs@.len() ==> final(self).pairs@[i] == (key, value) || old(
                    self,
                ).pairs@.contains(final(self).pairs@[i]),
    {
        let n = self.pairs.len();
        let mut i: usize = 0;
        loop
            invariant_except_break
                n == self.pairs@.len(),
                i <= n,
                self.wf(),
                self == old(self),
                forall|j: int| 0 <= j < i ==> self.pairs@[j].0@ != key@,
            ensures
                self.wf(),
                self@ == old(self)@.remove(key@),
                forall|j: int|
                    0 <= j < self.pairs@.len() ==> old(self).pairs@.contains(self.pairs@[j]),
            decreases n - i,
        {
            if i >= n {
                proof {
                    lemma_assoc_view_contains(self.pairs@, key@);
                    assert(self@ =~= self@.remove(key@));
                    assert(forall|j: int|
                        0 <= j < self.pairs@.len() ==> old(self).pairs@.contains(#[trigger] self.pairs@[j]));
                }
                break;
            }
            if str_eq(self.pairs[i].0.as_str(), key.as_str()) {
                proof {
                    lemma_assoc_view_remove(self.pairs@, i as int);
                    assert(self.pairs@[i as int].0@ == key@);
                }
                self.pairs.remove(i);
                proof {
                    assert forall|j: int| 0 <= j < self.pairs@.len() implies old(
                        self,
                    ).pairs@.contains(#[trigger] self.pairs@[j]) by {
                        let sj = if j < i { j } else { j + 1 };
                        assert(self.pairs@[j] == old(self).pairs@[sj]);
                    }
                }
                break;
            }
            i += 1;
        }
        proof {
            let s = self.pairs@;
            assert(s.push((key, value)).drop_last() =~= s);
            assert(s.push((key, value)).last() == (key, value));
            assert forall|p: int, q: int|
                0 <= p < q < s.push((key, value)).len() implies s.push((key, value))[p].0@ != s.push(
                (key, value),
            )[q].0@ by {
                lemma_assoc_view_contains(s, key@);
                if q == s.len() {
                    assert(s.push((key, value))[p] == s[p]);
                    assert(!self@.remove(key@).contains_key(key@));
                    if s[p].0@ == key@ {
                        assert(assoc_view(s).contains_key(key@));
                    }
                }
            }
            assert(old(self)@.remove(key@).insert(key@, value@) =~= old(self)@.insert(
                key@,
                value@,
            ));
        }
        let ghost mid = self.pairs@;
        self.pairs.push((key, value));
        proof {
            assert forall|i: int|
                0 <= i < self.pairs@.len() implies self.pairs@[i] == (key, value) || old(
                self,
            ).pairs@.contains(#[trigger] self.pairs@[i]) by {
                if i < mid.len() {
                    assert(self.pairs@[i] == mid[i]);
                }
            }
        }
    }

    /// Removes a binding if present.
    pub fn remove(&mut self, key: &str)
        requires
            old(self).wf(),
        ensures
            final(self).wf(),
            final(self)@ == old(self)@.remove(key@),
    {
        let n = self.pairs.len();
        let mut i: usize = 0;
        while i < n
            invariant
                n == self.pairs@.len(),
                i <= n,
                self.wf(),
                self == old(self),
                forall|j: int| 0 <= j < i ==> self.pairs@[j].0@ != key@,
            decreases n - i,
        {
            if str_eq(self.pairs[i].0.as_str(), key) {
                proof {
                    lemma_assoc_view_remove(self.pairs@, i as int);
                    assert(self.pairs@[i as int].0@ == key@);
                }
                self.pairs.remove(i);
                return;
            }
            i += 1;
        }
        proof {
            lemma_assoc_view_contains(self.pairs@, key@);
            assert(self@ =~= self@.remove(key@));
        }
    }

    /// Merges `other` into `self`; on a key collision the binding from
    /// `other` wins.
    pub fn extend(&mut self, other: SMap<V>)
        requires
            old(self).wf(),
        ensures
            final(self).wf(),
            final(self)@ == old(self)@.union_prefer_right(other@),
    {
        let mut rest = other;
        proof {
            assert(old(self)@.union_prefer_right(assoc_view(rest.pairs@)) =~= old(
                self,
            )@.union_prefer_right(assoc_view(rest.pairs@)));
        }
        let ghost target = old(self)@.union_prefer_right(assoc_view(rest.pairs@));
        while rest.pairs.len() > 0
            invariant
                self.wf(),
                target == self@.union_prefer_right(assoc_view(rest.pairs@)),
            decreases rest.pairs@.len(),
        {
            let ghost pre = rest.pairs@;
            let pair = rest.pairs.remove(0);
            proof {
                assert(pre =~= seq![pre[0]] + pre.skip(1));
                assert(rest.pairs@ =~= pre.skip(1));
                lemma_assoc_view_concat(seq![pre[0]], pre.skip(1));
                let single = assoc_view(seq![pre[0]]);
                assert(seq![pre[0]].drop_last() =~= Seq::<(String, V)>::empty());
                assert(assoc_view(Seq::<(String, V)>::empty()) == Map::<Seq<char>, V::V>::empty());
                assert(seq![pre[0]].last() == pre[0]);
                assert(single == assoc_view(seq![pre[0]].drop_last()).insert(pre[0].0@, pre[0].1@));
                assert(single =~= Map::<Seq<char>, V::V>::empty().insert(pre[0].0@, pre[0].1@));
                assert(self@.union_prefer_right(
                    single.union_prefer_right(assoc_view(pre.skip(1))),
                ) =~= self@.union_prefer_right(single).union_prefer_right(assoc_view(pre.skip(1))));
                assert(self@.union_prefer_right(single) =~= self@.insert(pre[0].0@, pre[0].1@));
            }
            self.insert(pair.0, pair.1);
        }
        proof {
            assert(rest.pairs@.len() == 0);
            assert(self@.union_prefer_right(assoc_view(rest.pairs@)) =~= self@);
        }
    }

    /// The number of bindings.
    pub fn len(&self) -> (r: usize)
        requires
            self.wf(),
        ensures
            r == self.pairs@.len(),
    {
        self.pairs.len()
    }
}

impl SMap<String> {
    /// A copy with the same bindings.
    pub fn duplicate(&self) -> (r: SMap<String>)
        requires
            self.wf(),
        ensures
            r.wf(),
            r@ == self@,
            r.pairs@.len() == self.pairs@.len(),
    {
        let n = self.pairs.len();
        let mut pairs: Vec<(String, String)> = Vec::new();
        let mut i: usize = 0;
        while i < n
            invariant
                n == self.pairs@.len(),
                i <= n,
                pairs@.len() == i,
                forall|j: int|
                    0 <= j < i ==> pairs@[j].0@ == self.pairs@[j].0@ && pairs@[j].1@
                        == self.pairs@[j].1@,
            decreases n - i,
        {
            let k = self.pairs[i].0.clone();
            let v = self.pairs[i].1.clone();
            pairs.push((k, v));
            i += 1;
        }
        let r = SMap { pairs };
        proof {
            lemma_assoc_view_parallel(r.pairs@, self.pairs@);
        }
        r
    }
}

/// Two association lists whose entries have equal key and value views
/// denote the same map.
pub proof fn lemma_assoc_view_parallel(a: Seq<(String, String)>, b: Seq<(String, String)>)
    requires
        a.len() == b.len(),
        forall|j: int| 0 <= j < a.len() ==> a[j].0@ == b[j].0@ && a[j].1@ == b[j].1@,
    ensures
        assoc_view(a) == assoc_view(b),
        distinct_keys(b) ==> distinct_keys(a),
    decreases a.len(),
{
    if a.len() == 0 {
        assert(assoc_view(a) =~= assoc_view(b));
    } else {
        assert(forall|j: int|
            0 <= j < a.drop_last().len() ==> a.drop_last()[j].0@ == b.drop_last()[j].0@
                && a.drop_last()[j].1@ == b.drop_last()[j].1@) by {
            assert(forall|j: int| 0 <= j < a.len() - 1 ==> a.drop_last()[j] == a[j]);
            assert(forall|j: int| 0 <= j < b.len() - 1 ==> b.drop_last()[j] == b[j]);
        }
        lemma_assoc_view_parallel(a.drop_last(), b.drop_last());
        assert(a.last().0@ == b.last().0@ && a.last().1@ == b.last().1@);
    }
}

} // verus!
