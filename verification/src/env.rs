//! The environment map a resolution assembles, and the operations the
//! orchestrator applies to it: stripping bookkeeping keys, filtering, and
//! manual overrides.
use crate::patterns::{kept, pattern_sources, spec_kept, CompiledPattern};
use crate::smap::{lemma_assoc_view_contains, SMap};
use vstd::prelude::*;

verus! {

/// The map from environment-variable name to value.
pub type EnvMap = SMap<String>;

/// The reserved bookkeeping key recording when a snapshot was written.
pub open spec fn ts_key() -> Seq<char> {
    "__timestamp__"@
}

/// The reserved bookkeeping key recording who wrote a snapshot.
pub open spec fn user_key() -> Seq<char> {
    "__user__"@
}

/// A fetched snapshot with the two reserved bookkeeping keys removed.
pub open spec fn spec_strip(m: Map<Seq<char>, Seq<char>>) -> Map<Seq<char>, Seq<char>> {
    m.remove(ts_key()).remove(user_key())
}

/// Removes the reserved bookkeeping keys from a fetched snapshot.
pub fn strip_reserved(m: &mut EnvMap)
    requires
        old(m).wf(),
    ensures
        final(m).wf(),
        final(m)@ == spec_strip(old(m)@),
{
    m.remove("__timestamp__");
    m.remove("__user__");
}

/// The environment restricted to the names that survive filtering.
pub open spec fn spec_filter(
    m: Map<Seq<char>, Seq<char>>,
    incl_pats: Seq<Seq<char>>,
    excl_pats: Seq<Seq<char>>,
) -> Map<Seq<char>, Seq<char>> {
    Map::new(|k: Seq<char>| m.contains_key(k) && spec_kept(k, incl_pats, excl_pats), |k: Seq<char>| m[k])
}

/// Retains exactly the variables that survive the filter.
pub fn filtered(m: &EnvMap, incl: &Vec<CompiledPattern>, excl: &Vec<CompiledPattern>) -> (r:
    EnvMap)
    requires
        m.wf(),
    ensures
        r.wf(),
        r@ == spec_filter(m@, pattern_sources(incl@), pattern_sources(excl@)),
{
    let ghost incs = pattern_sources(incl@);
    let ghost excs = pattern_sources(excl@);
    let n = m.pairs.len();
    let mut out: EnvMap = SMap::new();
    let mut i: usize = 0;
    proof {
        assert(out@ =~= spec_filter(crate::smap::assoc_view(m.pairs@.take(0)), incs, excs));
    }
    while i < n
        invariant
            n == m.pairs@.len(),
            i <= n,
            m.wf(),
            out.wf(),
            incs == pattern_sources(incl@),
            excs == pattern_sources(excl@),
            out@ == spec_filter(crate::smap::assoc_view(m.pairs@.take(i as int)), incs, excs),
        decreases n - i,
    {
        let ghost pre = m.pairs@.take(i as int);
        let ghost full = m.pairs@.take(i as int + 1);
        proof {
            assert(full =~= pre.push(m.pairs@[i as int]));
            assert(full.drop_last() =~= pre);
            assert(crate::smap::assoc_view(full) == crate::smap::assoc_view(pre).insert(
                m.pairs@[i as int].0@,
                m.pairs@[i as int].1@,
            ));
            lemma_assoc_view_contains(pre, m.pairs@[i as int].0@);
            assert(forall|j: int| 0 <= j < i ==> pre[j] == m.pairs@[j]);
            assert(!crate::smap::assoc_view(pre).contains_key(m.pairs@[i as int].0@));
        }
        let key_ref = &m.pairs[i].0;
        if kept(key_ref.as_str(), incl, excl) {
            let k = m.pairs[i].0.clone();
            let v = m.pairs[i].1.clone();
            out.insert(k, v);
            proof {
                assert(out@ =~= spec_filter(crate::smap::assoc_view(full), incs, excs));
            }
        } else {
            proof {
                assert(out@ =~= spec_filter(crate::smap::assoc_view(full), incs, excs));
            }
        }
        i += 1;
    }
    proof {
        assert(m.pairs@.take(n as int) =~= m.pairs@);
    }
    out
}

/// The result of one resolution: the final environment map.
pub struct Env {
    pub map: EnvMap,
}

impl View for Env {
    type V = Map<Seq<char>, Seq<char>>;

    open spec fn view(&self) -> Map<Seq<char>, Seq<char>> {
        self.map@
    }
}

impl Env {
    pub open spec fn wf(&self) -> bool {
        self.map.wf()
    }

    /// The resolved variables.
    pub fn vars(&self) -> (r: &EnvMap)
        ensures
            r@ == self@,
            self.wf() ==> r.wf(),
    {
        &self.map
    }
}

} // verus!
