//! The library-wide laws, stated and proved over the specification
//! functions that the executable contracts are pinned to.
use crate::address::{spec_api_base, spec_request_url, spec_strip_slashes};
use crate::env::{spec_filter, ts_key, user_key};
use crate::patterns::spec_kept;
use crate::rancher_metadata::{spec_retry, Attempt, Info};
use crate::resolve::{
    spec_base_url_name, spec_dep_one, spec_deps, spec_dependencies,
    spec_frontend_url_name, spec_generated, spec_meta_env, spec_resolve, spec_snapshot,
    spec_uri_key, spec_versioned, BackendKind, EnvView, SpecOutcome, SpecStep, StoreV,
};
use vstd::prelude::*;

verus! {

/// Merging is append-only override: whatever key the later source binds,
/// the merged map binds to the later source's value, and keys only the
/// earlier source binds keep their value.
pub proof fn lemma_merge_override(lo: EnvView, hi: EnvView)
    ensures
        forall|k: Seq<char>|
            hi.contains_key(k) ==> lo.union_prefer_right(hi).contains_key(k)
                && lo.union_prefer_right(hi)[k] == hi[k],
        forall|k: Seq<char>|
            lo.contains_key(k) && !hi.contains_key(k) ==> lo.union_prefer_right(
                hi,
            ).contains_key(k) && lo.union_prefer_right(hi)[k] == lo[k],
{
}

/// A namespace with no version pointer resolves at version 1 and never
/// fails on that account: with the pointer reported absent, the versioned
/// fetch is exactly the snapshot fetch at version 1, and when that
/// snapshot is absent too the environment passes through untouched.
pub proof fn lemma_default_version(st: StoreV, b: BackendKind, ns: Seq<char>, env: EnvView)
    requires
        st.contains_key(crate::resolve::spec_current_key(ns)),
        st[crate::resolve::spec_current_key(ns)] is None,
    ensures
        spec_versioned(st, b, ns, env) == spec_snapshot(st, b, ns, 1, env),
        (st.contains_key(crate::resolve::spec_snapshot_key(ns, 1)) && st[
            crate::resolve::spec_snapshot_key(ns, 1)] is None) ==> spec_versioned(st, b, ns, env)
            == (SpecStep::Ready { env }),
{
}

/// Within the versioned fetch the pointer read precedes the snapshot
/// read: a snapshot is only ever requested for a namespace whose version
/// pointer has already been answered.
pub proof fn lemma_pointer_read_first(st: StoreV, b: BackendKind, ns: Seq<char>, env: EnvView)
    ensures
        match spec_versioned(st, b, ns, env) {
            SpecStep::Need { backend, key, shape } => shape is Table ==> st.contains_key(
                crate::resolve::spec_current_key(ns),
            ),
            _ => true,
        },
{
}

/// Filtering is exact: a key survives if and only if it was present and
/// some keep-pattern matches it (or there are none) while no drop-pattern
/// does, and surviving keys keep their value.
pub proof fn lemma_filter_exact(
    m: EnvView,
    incl_pats: Seq<Seq<char>>,
    excl_pats: Seq<Seq<char>>,
    k: Seq<char>,
)
    ensures
        spec_filter(m, incl_pats, excl_pats).contains_key(k) <==> (m.contains_key(k) && spec_kept(
            k,
            incl_pats,
            excl_pats,
        )),
        spec_filter(m, incl_pats, excl_pats).contains_key(k) ==> spec_filter(
            m,
            incl_pats,
            excl_pats,
        )[k] == m[k],
{
}

/// Manual overrides bypass the filter: every overridden key is present in
/// the final map with the overridden value, whatever the patterns say.
pub proof fn lemma_overrides_bypass_filter(
    c: StoreV,
    v: StoreV,
    service: Seq<char>,
    meta: Option<(Seq<char>, Seq<char>)>,
    incl_pats: Seq<Seq<char>>,
    excl_pats: Seq<Seq<char>>,
    overrides: EnvView,
    k: Seq<char>,
)
    requires
        overrides.contains_key(k),
    ensures
        match spec_resolve(c, v, service, meta, incl_pats, excl_pats, overrides) {
            SpecOutcome::Done { env } => env.contains_key(k) && env[k] == overrides[k],
            _ => true,
        },
{
}

/// Resolution is deterministic: against identical backend state and
/// identical inputs, two resolutions yield identical outcomes.
pub proof fn lemma_resolve_deterministic(
    c1: StoreV,
    c2: StoreV,
    v1: StoreV,
    v2: StoreV,
    service: Seq<char>,
    meta: Option<(Seq<char>, Seq<char>)>,
    incl_pats: Seq<Seq<char>>,
    excl_pats: Seq<Seq<char>>,
    overrides: EnvView,
)
    requires
        c1 == c2,
        v1 == v2,
    ensures
        spec_resolve(c1, v1, service, meta, incl_pats, excl_pats, overrides) == spec_resolve(
            c2,
            v2,
            service,
            meta,
            incl_pats,
            excl_pats,
            overrides,
        ),
{
}

/// A dependency whose base URL is present and whose frontend URL is
/// reported absent contributes exactly its base-URL entry: the missing
/// frontend URL is no error and adds no key.
pub proof fn lemma_dependency_expansion(st: StoreV, dep: Seq<char>, url: Seq<char>, env: EnvView)
    requires
        st.contains_key(spec_uri_key(spec_base_url_name(dep))),
        st[spec_uri_key(spec_base_url_name(dep))] == Some(crate::store::DocView::Text(url)),
        st.contains_key(spec_uri_key(spec_frontend_url_name(dep))),
        st[spec_uri_key(spec_frontend_url_name(dep))] is None,
    ensures
        spec_dep_one(st, dep, env) == (SpecStep::Ready {
            env: env.insert(spec_base_url_name(dep), url),
        }),
{
}

/// Bounded retry reaches an eventual success: when the first four
/// attempts fail and the fifth succeeds, the fetch succeeds with that
/// answer.
pub proof fn lemma_retry_eventual_success(attempts: Seq<Attempt>, info: Option<Info>)
    requires
        attempts.len() >= 5,
        forall|i: int| 0 <= i < 4 ==> attempts[i] is Failure,
        attempts[4] == Attempt::Success(info),
    ensures
        spec_retry(attempts, 0) == Some(Result::<Option<Info>, String>::Ok(info)),
{
    assert(spec_retry(attempts, 0) == spec_retry(attempts.skip(1), 1));
    assert(attempts.skip(1)[0] == attempts[1]);
    assert(spec_retry(attempts.skip(1), 1) == spec_retry(attempts.skip(1).skip(1), 2));
    assert(attempts.skip(1).skip(1) =~= attempts.skip(2));
    assert(attempts.skip(2)[0] == attempts[2]);
    assert(spec_retry(attempts.skip(2), 2) == spec_retry(attempts.skip(2).skip(1), 3));
    assert(attempts.skip(2).skip(1) =~= attempts.skip(3));
    assert(attempts.skip(3)[0] == attempts[3]);
    assert(spec_retry(attempts.skip(3), 3) == spec_retry(attempts.skip(3).skip(1), 4));
    assert(attempts.skip(3).skip(1) =~= attempts.skip(4));
    assert(attempts.skip(4)[0] == attempts[4]);
    assert(spec_retry(attempts.skip(4), 4) == Some(Result::<Option<Info>, String>::Ok(info)));
}

/// Bounded retry terminates: when six attempts in a row fail, the fetch
/// gives up and propagates the sixth error.
pub proof fn lemma_retry_exhaustion(attempts: Seq<Attempt>, err: Seq<char>)
    requires
        attempts.len() >= 6,
        forall|i: int| 0 <= i < 6 ==> attempts[i] is Failure,
        attempts[5] matches Attempt::Failure(e) && e@ == err,
    ensures
        match spec_retry(attempts, 0) {
            Some(r) => match r {
                Result::Ok(_) => false,
                Result::Err(e) => e@ == err,
            },
            None => false,
        },
{
    assert(spec_retry(attempts, 0) == spec_retry(attempts.skip(1), 1));
    assert(attempts.skip(1)[0] == attempts[1]);
    assert(spec_retry(attempts.skip(1), 1) == spec_retry(attempts.skip(1).skip(1), 2));
    assert(attempts.skip(1).skip(1) =~= attempts.skip(2));
    assert(attempts.skip(2)[0] == attempts[2]);
    assert(spec_retry(attempts.skip(2), 2) == spec_retry(attempts.skip(2).skip(1), 3));
    assert(attempts.skip(2).skip(1) =~= attempts.skip(3));
    assert(attempts.skip(3)[0] == attempts[3]);
    assert(spec_retry(attempts.skip(3), 3) == spec_retry(attempts.skip(3).skip(1), 4));
    assert(attempts.skip(3).skip(1) =~= attempts.skip(4));
    assert(attempts.skip(4)[0] == attempts[4]);
    assert(spec_retry(attempts.skip(4), 4) == spec_retry(attempts.skip(4).skip(1), 5));
    assert(attempts.skip(4).skip(1) =~= attempts.skip(5));
    assert(attempts.skip(5)[0] == attempts[5]);
}

/// After a leader redirect, every request targets the leader: the URL of
/// any key is the leader's API base followed by the key.
pub proof fn lemma_requests_target_leader(leader_address: Seq<char>, key: Seq<char>)
    ensures
        spec_request_url(spec_api_base(leader_address), key).take(
            spec_api_base(leader_address).len() as int,
        ) == spec_api_base(leader_address),
        spec_request_url(spec_api_base(leader_address), key).skip(
            spec_api_base(leader_address).len() as int,
        ) == spec_strip_slashes(key),
{
    let base = spec_api_base(leader_address);
    assert((base + spec_strip_slashes(key)).take(base.len() as int) =~= base);
    assert((base + spec_strip_slashes(key)).skip(base.len() as int) =~= spec_strip_slashes(key));
}

/// The reserved bookkeeping keys differ from the fixed metadata keys and
/// from every dependency-URL key.
proof fn lemma_reserved_key_shapes(dep: Seq<char>)
    ensures
        "RANCHER_IP"@ != ts_key(),
        "RANCHER_IP"@ != user_key(),
        "STATSD_HOST"@ != ts_key(),
        "STATSD_HOST"@ != user_key(),
        spec_base_url_name(dep) != ts_key(),
        spec_base_url_name(dep) != user_key(),
        spec_frontend_url_name(dep) != ts_key(),
        spec_frontend_url_name(dep) != user_key(),
{
    reveal_strlit("RANCHER_IP");
    reveal_strlit("STATSD_HOST");
    reveal_strlit("__timestamp__");
    reveal_strlit("__user__");
    reveal_strlit("_BASE_URL");
    reveal_strlit("_FRONTEND_URL");
    let bn = spec_base_url_name(dep);
    let fn_ = spec_frontend_url_name(dep);
    assert(bn.len() >= 9);
    assert(bn[bn.len() - 1] == 'L');
    assert(fn_.len() >= 13);
    assert(fn_[fn_.len() - 1] == 'L');
    assert(ts_key()[ts_key().len() - 1] == '_');
    assert(user_key()[user_key().len() - 1] == '_');
}

/// The versioned fetch keeps the environment clean of reserved keys.
proof fn lemma_versioned_clean(st: StoreV, b: BackendKind, ns: Seq<char>, env: EnvView)
    requires
        !env.contains_key(ts_key()),
        !env.contains_key(user_key()),
    ensures
        match spec_versioned(st, b, ns, env) {
            SpecStep::Ready { env: e } => !e.contains_key(ts_key()) && !e.contains_key(user_key()),
            _ => true,
        },
{
}

/// The generated-document merge keeps the environment clean.
proof fn lemma_generated_clean(st: StoreV, service: Seq<char>, env: EnvView)
    requires
        !env.contains_key(ts_key()),
        !env.contains_key(user_key()),
    ensures
        match spec_generated(st, service, env) {
            SpecStep::Ready { env: e } => !e.contains_key(ts_key()) && !e.contains_key(user_key()),
            _ => true,
        },
{
}

/// One dependency's expansion keeps the environment clean.
proof fn lemma_dep_one_clean(st: StoreV, dep: Seq<char>, env: EnvView)
    requires
        !env.contains_key(ts_key()),
        !env.contains_key(user_key()),
    ensures
        match spec_dep_one(st, dep, env) {
            SpecStep::Ready { env: e } => !e.contains_key(ts_key()) && !e.contains_key(user_key()),
            _ => true,
        },
{
    lemma_reserved_key_shapes(dep);
}

/// The whole dependency expansion keeps the environment clean.
proof fn lemma_deps_clean(st: StoreV, deps: Seq<Seq<char>>, i: int, env: EnvView)
    requires
        !env.contains_key(ts_key()),
        !env.contains_key(user_key()),
    ensures
        match spec_deps(st, deps, i, env) {
            SpecStep::Ready { env: e } => !e.contains_key(ts_key()) && !e.contains_key(user_key()),
            _ => true,
        },
    decreases deps.len() - i,
{
    if i < 0 || i >= deps.len() {
    } else {
        lemma_dep_one_clean(st, deps[i], env);
        match spec_dep_one(st, deps[i], env) {
            SpecStep::Ready { env: e } => {
                lemma_deps_clean(st, deps, i + 1, e);
            },
            _ => {},
        }
    }
}

/// The reserved bookkeeping keys never appear in the final environment
/// map: every fetched snapshot is stripped of them before merging, and no
/// other step introduces them — provided the manual overrides do not.
pub proof fn lemma_no_reserved_keys(
    c: StoreV,
    v: StoreV,
    service: Seq<char>,
    meta: Option<(Seq<char>, Seq<char>)>,
    incl_pats: Seq<Seq<char>>,
    excl_pats: Seq<Seq<char>>,
    overrides: EnvView,
)
    requires
        !overrides.contains_key(ts_key()),
        !overrides.contains_key(user_key()),
    ensures
        match spec_resolve(c, v, service, meta, incl_pats, excl_pats, overrides) {
            SpecOutcome::Done { env } => !env.contains_key(ts_key()) && !env.contains_key(
                user_key(),
            ),
            _ => true,
        },
{
    let env0 = spec_meta_env(meta);
    assert(!env0.contains_key(ts_key()) && !env0.contains_key(user_key())) by {
        lemma_reserved_key_shapes(Seq::empty());
    }
    lemma_versioned_clean(c, BackendKind::Config, "global"@, env0);
    match spec_versioned(c, BackendKind::Config, "global"@, env0) {
        SpecStep::Ready { env: e1 } => {
            lemma_versioned_clean(v, BackendKind::Secrets, "global"@, e1);
            match spec_versioned(v, BackendKind::Secrets, "global"@, e1) {
                SpecStep::Ready { env: e2 } => {
                    let dk = crate::resolve::spec_deps_key(service);
                    if c.contains_key(dk) {
                        match c[dk] {
                            Some(crate::store::DocView::List(ds)) => {
                                lemma_deps_clean(c, ds, 0, e2);
                            },
                            _ => {},
                        }
                    }
                    match spec_dependencies(c, service, e2) {
                        SpecStep::Ready { env: e3 } => {
                            lemma_generated_clean(c, service, e3);
                            match spec_generated(c, service, e3) {
                                SpecStep::Ready { env: e4 } => {
                                    lemma_versioned_clean(c, BackendKind::Config, service, e4);
                                    match spec_versioned(c, BackendKind::Config, service, e4) {
                                        SpecStep::Ready { env: e5 } => {
                                            lemma_versioned_clean(
                                                v,
                                                BackendKind::Secrets,
                                                service,
                                                e5,
                                            );
                                            match spec_versioned(
                                                v,
                                                BackendKind::Secrets,
                                                service,
                                                e5,
                                            ) {
                                                SpecStep::Ready { env: e6 } => {
                                                    lemma_filter_exact(
                                                        e6,
                                                        incl_pats,
                                                        excl_pats,
                                                        ts_key(),
                                                    );
                                                    lemma_filter_exact(
                                                        e6,
                                                        incl_pats,
                                                        excl_pats,
                                                        user_key(),
                                                    );
                                                },
                                                _ => {},
                                            }
                                        },
                                        _ => {},
                                    }
                                },
                                _ => {},
                            }
                        },
                        _ => {},
                    }
                },
                _ => {},
            }
        },
        _ => {},
    }
}

} // verus!
