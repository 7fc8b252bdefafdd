//! The resolution orchestrator.
//!
//! A resolution is a pure function of the two backend snapshots: given
//! what the configuration and secrets backends answered so far, it either
//! names the next request the driver must perform, fails with a decode
//! error, or produces the final environment map. The merge order is
//! fixed: metadata enrichment, the global namespace from configuration
//! then secrets, dependency expansion, the generated document, and the
//! service namespace from configuration then secrets; then filtering, and
//! manual overrides last.
use crate::env::{filtered, spec_filter, spec_strip, strip_reserved, Env, EnvMap};
use crate::patterns::{pattern_sources, CompiledPattern};
use crate::rancher_metadata::Info;
use crate::smap::SMap;
use crate::store::{Doc, DocView, Fetched, Store};
use crate::text::{spec_dec, u64_to_string};
use vstd::prelude::*;

verus! {

/// Which backend a request goes to.
#[derive(Clone, Copy, PartialEq, Eq, Structural, Debug)]
pub enum BackendKind {
    Config,
    Secrets,
}

/// The shape a response must be decoded into.
#[derive(Clone, Copy, PartialEq, Eq, Structural, Debug)]
pub enum Shape {
    Pointer,
    Table,
    List,
    Text,
}

/// A request the driver must perform and record before resolution can
/// proceed.
pub struct Request {
    pub backend: BackendKind,
    pub key: String,
    pub shape: Shape,
}

/// A fatal resolution error: the named backend answered the named key
/// with a document of the wrong shape.
pub struct ResolveError {
    pub backend: BackendKind,
    pub key: String,
}

impl ResolveError {
    /// A diagnostic description naming the backend and the key.
    pub fn message(&self) -> (r: String)
        ensures
            r@ == "error decoding the document at "@ + self.key@ + " from the "@ + (match self
                .backend {
                BackendKind::Config => "config"@,
                BackendKind::Secrets => "secrets"@,
            }) + " backend"@,
    {
        let mut out = String::from_str("error decoding the document at ");
        out.append(self.key.as_str());
        out.append(" from the ");
        match self.backend {
            BackendKind::Config => out.append("config"),
            BackendKind::Secrets => out.append("secrets"),
        }
        out.append(" backend");
        out
    }
}

/// The store view: what one backend answered, per key.
pub type StoreV = Map<Seq<char>, Option<DocView>>;

/// The environment view: variable names to values.
pub type EnvView = Map<Seq<char>, Seq<char>>;

/// The outcome of one stage of the pipeline.
pub ghost enum SpecStep {
    Need { backend: BackendKind, key: Seq<char>, shape: Shape },
    Fail { backend: BackendKind, key: Seq<char> },
    Ready { env: EnvView },
}

/// The outcome of a whole resolution.
pub ghost enum SpecOutcome {
    Need { backend: BackendKind, key: Seq<char>, shape: Shape },
    Fail { backend: BackendKind, key: Seq<char> },
    Done { env: EnvView },
}

/// The outcome of one stage, executable form.
pub enum StepOutcome {
    Need(Request),
    Fail(ResolveError),
    Ready(EnvMap),
}

/// The outcome of a whole resolution, executable form.
pub enum Outcome {
    Need(Request),
    Fail(ResolveError),
    Done(Env),
}

pub open spec fn step_view(s: &StepOutcome) -> SpecStep {
    match s {
        StepOutcome::Need(req) => SpecStep::Need {
            backend: req.backend,
            key: req.key@,
            shape: req.shape,
        },
        StepOutcome::Fail(e) => SpecStep::Fail { backend: e.backend, key: e.key@ },
        StepOutcome::Ready(m) => SpecStep::Ready { env: m@ },
    }
}

pub open spec fn step_wf(s: &StepOutcome) -> bool {
    match s {
        StepOutcome::Ready(m) => m.wf(),
        _ => true,
    }
}

pub open spec fn outcome_view(s: &Outcome) -> SpecOutcome {
    match s {
        Outcome::Need(req) => SpecOutcome::Need {
            backend: req.backend,
            key: req.key@,
            shape: req.shape,
        },
        Outcome::Fail(e) => SpecOutcome::Fail { backend: e.backend, key: e.key@ },
        Outcome::Done(env) => SpecOutcome::Done { env: env@ },
    }
}

pub open spec fn outcome_wf(s: &Outcome) -> bool {
    match s {
        Outcome::Done(env) => env.wf(),
        _ => true,
    }
}

// The request keys. A namespace is `global` or the resolved service name.
pub open spec fn spec_current_key(ns: Seq<char>) -> Seq<char> {
    "config/"@ + ns + "/current"@
}

pub open spec fn spec_snapshot_key(ns: Seq<char>, ver: u64) -> Seq<char> {
    "config/"@ + ns + "/"@ + spec_dec(ver as nat)
}

pub open spec fn spec_deps_key(ns: Seq<char>) -> Seq<char> {
    "config/"@ + ns + "/dependencies"@
}

pub open spec fn spec_generated_key(ns: Seq<char>) -> Seq<char> {
    "config/"@ + ns + "/generated"@
}

pub open spec fn spec_uri_key(name: Seq<char>) -> Seq<char> {
    "infrastructure/service-uris/"@ + name
}

/// The environment key holding a dependency's base URL.
pub open spec fn spec_base_url_name(dep: Seq<char>) -> Seq<char> {
    crate::text::spec_normalize_dep(dep) + "_BASE_URL"@
}

/// The environment key holding a dependency's frontend URL.
pub open spec fn spec_frontend_url_name(dep: Seq<char>) -> Seq<char> {
    crate::text::spec_normalize_dep(dep) + "_FRONTEND_URL"@
}

/// The version pointer key of a namespace.
pub fn current_key(ns: &str) -> (r: String)
    ensures
        r@ == spec_current_key(ns@),
{
    let mut out = String::from_str("config/");
    out.append(ns);
    out.append("/current");
    out
}

/// The snapshot key of a namespace at a version.
pub fn snapshot_key(ns: &str, ver: u64) -> (r: String)
    ensures
        r@ == spec_snapshot_key(ns@, ver),
{
    let mut out = String::from_str("config/");
    out.append(ns);
    out.append("/");
    let digits = u64_to_string(ver);
    out.append(digits.as_str());
    out
}

/// The dependency-list key of a namespace.
pub fn deps_key(ns: &str) -> (r: String)
    ensures
        r@ == spec_deps_key(ns@),
{
    let mut out = String::from_str("config/");
    out.append(ns);
    out.append("/dependencies");
    out
}

/// The generated-document key of a namespace.
pub fn generated_key(ns: &str) -> (r: String)
    ensures
        r@ == spec_generated_key(ns@),
{
    let mut out = String::from_str("config/");
    out.append(ns);
    out.append("/generated");
    out
}

/// The infrastructure key holding a service URL.
pub fn uri_key(name: &str) -> (r: String)
    ensures
        r@ == spec_uri_key(name@),
{
    let mut out = String::from_str("infrastructure/service-uris/");
    out.append(name);
    out
}

/// The versioned fetch of one namespace: read the version pointer
/// (defaulting to version 1 when it is absent, never failing on that
/// account), then merge the snapshot at that version, stripped of the
/// reserved bookkeeping keys; an absent snapshot merges nothing.
pub open spec fn spec_versioned(st: StoreV, b: BackendKind, ns: Seq<char>, env: EnvView) -> SpecStep {
    let pk = spec_current_key(ns);
    if !st.contains_key(pk) {
        SpecStep::Need { backend: b, key: pk, shape: Shape::Pointer }
    } else {
        match st[pk] {
            None => spec_snapshot(st, b, ns, 1, env),
            Some(DocView::Pointer(ver)) => spec_snapshot(st, b, ns, ver, env),
            Some(_) => SpecStep::Fail { backend: b, key: pk },
        }
    }
}

/// The snapshot merge of one namespace at one version.
pub open spec fn spec_snapshot(
    st: StoreV,
    b: BackendKind,
    ns: Seq<char>,
    ver: u64,
    env: EnvView,
) -> SpecStep {
    let sk = spec_snapshot_key(ns, ver);
    if !st.contains_key(sk) {
        SpecStep::Need { backend: b, key: sk, shape: Shape::Table }
    } else {
        match st[sk] {
            None => SpecStep::Ready { env },
            Some(DocView::Table(m)) => SpecStep::Ready {
                env: env.union_prefer_right(spec_strip(m)),
            },
            Some(_) => SpecStep::Fail { backend: b, key: sk },
        }
    }
}

/// The frontend-URL half of one dependency: an absent URL adds nothing
/// and is not an error.
pub open spec fn spec_dep_front(st: StoreV, dep: Seq<char>, env: EnvView) -> SpecStep {
    let front_name = spec_frontend_url_name(dep);
    let fk = spec_uri_key(front_name);
    if !st.contains_key(fk) {
        SpecStep::Need { backend: BackendKind::Config, key: fk, shape: Shape::Text }
    } else {
        match st[fk] {
            None => SpecStep::Ready { env },
            Some(DocView::Text(v)) => SpecStep::Ready { env: env.insert(front_name, v) },
            Some(_) => SpecStep::Fail { backend: BackendKind::Config, key: fk },
        }
    }
}

/// One dependency: look up its base URL, then its frontend URL; a missing
/// URL is a warning, not an error; a document of the wrong shape is
/// fatal.
pub open spec fn spec_dep_one(st: StoreV, dep: Seq<char>, env: EnvView) -> SpecStep {
    let base_name = spec_base_url_name(dep);
    let bk = spec_uri_key(base_name);
    if !st.contains_key(bk) {
        SpecStep::Need { backend: BackendKind::Config, key: bk, shape: Shape::Text }
    } else {
        match st[bk] {
            None => spec_dep_front(st, dep, env),
            Some(DocView::Text(v)) => spec_dep_front(st, dep, env.insert(base_name, v)),
            Some(_) => SpecStep::Fail { backend: BackendKind::Config, key: bk },
        }
    }
}

/// The dependencies from position `i` on, expanded in declaration order.
pub open spec fn spec_deps(st: StoreV, deps: Seq<Seq<char>>, i: int, env: EnvView) -> SpecStep
    decreases deps.len() - i,
{
    if i < 0 || i >= deps.len() {
        SpecStep::Ready { env }
    } else {
        match spec_dep_one(st, deps[i], env) {
            SpecStep::Ready { env: e } => spec_deps(st, deps, i + 1, e),
            other => other,
        }
    }
}

/// The dependency expansion of a service: read its dependency list (an
/// absent list means no dependencies), then expand each entry.
pub open spec fn spec_dependencies(st: StoreV, service: Seq<char>, env: EnvView) -> SpecStep {
    let dk = spec_deps_key(service);
    if !st.contains_key(dk) {
        SpecStep::Need { backend: BackendKind::Config, key: dk, shape: Shape::List }
    } else {
        match st[dk] {
            None => SpecStep::Ready { env },
            Some(DocView::List(ds)) => spec_deps(st, ds, 0, env),
            Some(_) => SpecStep::Fail { backend: BackendKind::Config, key: dk },
        }
    }
}

/// The generated document of a service: a flat map, not versioned; its
/// absence is not an error; the reserved bookkeeping keys are stripped
/// like those of any fetched snapshot.
pub open spec fn spec_generated(st: StoreV, service: Seq<char>, env: EnvView) -> SpecStep {
    let gk = spec_generated_key(service);
    if !st.contains_key(gk) {
        SpecStep::Need { backend: BackendKind::Config, key: gk, shape: Shape::Table }
    } else {
        match st[gk] {
            None => SpecStep::Ready { env },
            Some(DocView::Table(m)) => SpecStep::Ready {
                env: env.union_prefer_right(spec_strip(m)),
            },
            Some(_) => SpecStep::Fail { backend: BackendKind::Config, key: gk },
        }
    }
}

/// The two entries metadata enrichment contributes, when it ran.
pub open spec fn spec_meta_env(meta: Option<(Seq<char>, Seq<char>)>) -> EnvView {
    match meta {
        None => Map::empty(),
        Some(p) => Map::<Seq<char>, Seq<char>>::empty().insert("RANCHER_IP"@, p.0).insert(
            "STATSD_HOST"@,
            p.1,
        ),
    }
}

/// The fields of a fetched metadata document, when one was fetched.
pub open spec fn spec_meta_view(meta: &Option<Info>) -> Option<(Seq<char>, Seq<char>)> {
    match meta {
        None => None,
        Some(info) => Some((info.container.primary_ip@, info.host.labels.fqdn@)),
    }
}

/// One whole resolution as a function of the two backend snapshots: the
/// strict merge sequence, then filtering, then manual overrides.
pub open spec fn spec_resolve(
    c: StoreV,
    v: StoreV,
    service: Seq<char>,
    meta: Option<(Seq<char>, Seq<char>)>,
    incl_pats: Seq<Seq<char>>,
    excl_pats: Seq<Seq<char>>,
    overrides: EnvView,
) -> SpecOutcome {
    let env0 = spec_meta_env(meta);
    match spec_versioned(c, BackendKind::Config, "global"@, env0) {
        SpecStep::Need { backend, key, shape } => SpecOutcome::Need { backend, key, shape },
        SpecStep::Fail { backend, key } => SpecOutcome::Fail { backend, key },
        SpecStep::Ready { env: e1 } => match spec_versioned(v, BackendKind::Secrets, "global"@, e1) {
            SpecStep::Need { backend, key, shape } => SpecOutcome::Need { backend, key, shape },
            SpecStep::Fail { backend, key } => SpecOutcome::Fail { backend, key },
            SpecStep::Ready { env: e2 } => match spec_dependencies(c, service, e2) {
                SpecStep::Need { backend, key, shape } => SpecOutcome::Need {
                    backend,
                    key,
                    shape,
                },
                SpecStep::Fail { backend, key } => SpecOutcome::Fail { backend, key },
                SpecStep::Ready { env: e3 } => match spec_generated(c, service, e3) {
                    SpecStep::Need { backend, key, shape } => SpecOutcome::Need {
                        backend,
                        key,
                        shape,
                    },
                    SpecStep::Fail { backend, key } => SpecOutcome::Fail { backend, key },
                    SpecStep::Ready { env: e4 } => match spec_versioned(
                        c,
                        BackendKind::Config,
                        service,
                        e4,
                    ) {
                        SpecStep::Need { backend, key, shape } => SpecOutcome::Need {
                            backend,
                            key,
                            shape,
                        },
                        SpecStep::Fail { backend, key } => SpecOutcome::Fail { backend, key },
                        SpecStep::Ready { env: e5 } => match spec_versioned(
                            v,
                            BackendKind::Secrets,
                            service,
                            e5,
                        ) {
                            SpecStep::Need { backend, key, shape } => SpecOutcome::Need {
                                backend,
                                key,
                                shape,
                            },
                            SpecStep::Fail { backend, key } => SpecOutcome::Fail { backend, key },
                            SpecStep::Ready { env: e6 } => SpecOutcome::Done {
                                env: spec_filter(
                                    e6,
                                    incl_pats,
                                    excl_pats,
                                ).union_prefer_right(overrides),
                            },
                        },
                    },
                },
            },
        },
    }
}

/// Performs the versioned fetch of one namespace against the snapshot.
fn fetch_versioned(store: &Store, b: BackendKind, ns: &str, env: EnvMap) -> (r: StepOutcome)
    requires
        store.wf(),
        env.wf(),
    ensures
        step_view(&r) == spec_versioned(store@, b, ns@, env@),
        step_wf(&r),
{
    let pk = current_key(ns);
    match store.get(pk.as_str()) {
        None => StepOutcome::Need(Request { backend: b, key: pk, shape: Shape::Pointer }),
        Some(f) => match f {
            Fetched::Absent => fetch_snapshot(store, b, ns, 1, env),
            Fetched::Present(Doc::Pointer(ver)) => {
                let v = ver.version;
                fetch_snapshot(store, b, ns, v, env)
            },
            Fetched::Present(_) => StepOutcome::Fail(ResolveError { backend: b, key: pk }),
        },
    }
}

/// Merges the snapshot of one namespace at one version.
fn fetch_snapshot(store: &Store, b: BackendKind, ns: &str, ver: u64, env: EnvMap) -> (r:
    StepOutcome)
    requires
        store.wf(),
        env.wf(),
    ensures
        step_view(&r) == spec_snapshot(store@, b, ns@, ver, env@),
        step_wf(&r),
{
    let sk = snapshot_key(ns, ver);
    match store.get(sk.as_str()) {
        None => StepOutcome::Need(Request { backend: b, key: sk, shape: Shape::Table }),
        Some(f) => match f {
            Fetched::Absent => StepOutcome::Ready(env),
            Fetched::Present(Doc::Table(m)) => {
                let mut snapshot = m.duplicate();
                strip_reserved(&mut snapshot);
                let mut env = env;
                env.extend(snapshot);
                StepOutcome::Ready(env)
            },
            Fetched::Present(_) => StepOutcome::Fail(ResolveError { backend: b, key: sk }),
        },
    }
}

/// Expands one dependency: its base URL, then its frontend URL.
fn expand_one_dep(store: &Store, dep: &str, env: EnvMap) -> (r: StepOutcome)
    requires
        store.wf(),
        env.wf(),
    ensures
        step_view(&r) == spec_dep_one(store@, dep@, env@),
        step_wf(&r),
{
    let norm = crate::text::normalize_dep(dep);
    let mut base_name = norm.clone();
    base_name.append("_BASE_URL");
    let bk = uri_key(base_name.as_str());
    let mut env = env;
    match store.get(bk.as_str()) {
        None => {
            return StepOutcome::Need(
                Request { backend: BackendKind::Config, key: bk, shape: Shape::Text },
            );
        },
        Some(f) => match f {
            Fetched::Absent => {},
            Fetched::Present(Doc::Text(v)) => {
                let value = v.clone();
                env.insert(base_name, value);
            },
            Fetched::Present(_) => {
                return StepOutcome::Fail(ResolveError { backend: BackendKind::Config, key: bk });
            },
        },
    }
    let mut front_name = norm;
    front_name.append("_FRONTEND_URL");
    let fk = uri_key(front_name.as_str());
    match store.get(fk.as_str()) {
        None => StepOutcome::Need(
            Request { backend: BackendKind::Config, key: fk, shape: Shape::Text },
        ),
        Some(f) => match f {
            Fetched::Absent => StepOutcome::Ready(env),
            Fetched::Present(Doc::Text(v)) => {
                let value = v.clone();
                env.insert(front_name, value);
                StepOutcome::Ready(env)
            },
            Fetched::Present(_) => StepOutcome::Fail(
                ResolveError { backend: BackendKind::Config, key: fk },
            ),
        },
    }
}

/// Expands the dependency list of the service.
fn expand_dependencies(store: &Store, service: &str, env: EnvMap) -> (r: StepOutcome)
    requires
        store.wf(),
        env.wf(),
    ensures
        step_view(&r) == spec_dependencies(store@, service@, env@),
        step_wf(&r),
{
    let dk = deps_key(service);
    match store.get(dk.as_str()) {
        None => StepOutcome::Need(
            Request { backend: BackendKind::Config, key: dk, shape: Shape::List },
        ),
        Some(f) => match f {
            Fetched::Absent => StepOutcome::Ready(env),
            Fetched::Present(Doc::List(ds)) => {
                let ghost dsv = ds.deep_view();
                proof {
                    assert(store@[dk@] == Some(DocView::List(dsv)));
                }
                let n = ds.len();
                let mut i: usize = 0;
                let mut cur = env;
                let ghost env0 = cur@;
                while i < n
                    invariant
                        store.wf(),
                        cur.wf(),
                        n == ds@.len(),
                        dsv == ds.deep_view(),
                        i <= n,
                        env0 == env@,
                        dk@ == spec_deps_key(service@),
                        store@.contains_key(dk@),
                        store@[dk@] == Some(DocView::List(dsv)),
                        spec_deps(store@, dsv, 0, env0) == spec_deps(store@, dsv, i as int, cur@),
                    decreases n - i,
                {
                    proof {
                        assert(dsv[i as int] == ds@[i as int]@);
                    }
                    let step = expand_one_dep(store, ds[i].as_str(), cur);
                    match step {
                        StepOutcome::Ready(e) => {
                            cur = e;
                        },
                        StepOutcome::Need(q) => {
                            return StepOutcome::Need(q);
                        },
                        StepOutcome::Fail(e) => {
                            return StepOutcome::Fail(e);
                        },
                    }
                    i += 1;
                }
                StepOutcome::Ready(cur)
            },
            Fetched::Present(_) => StepOutcome::Fail(
                ResolveError { backend: BackendKind::Config, key: dk },
            ),
        },
    }
}

/// Merges the generated document of the service.
fn fetch_generated(store: &Store, service: &str, env: EnvMap) -> (r: StepOutcome)
    requires
        store.wf(),
        env.wf(),
    ensures
        step_view(&r) == spec_generated(store@, service@, env@),
        step_wf(&r),
{
    let gk = generated_key(service);
    match store.get(gk.as_str()) {
        None => StepOutcome::Need(
            Request { backend: BackendKind::Config, key: gk, shape: Shape::Table },
        ),
        Some(f) => match f {
            Fetched::Absent => StepOutcome::Ready(env),
            Fetched::Present(Doc::Table(m)) => {
                let mut generated = m.duplicate();
                strip_reserved(&mut generated);
                let mut env = env;
                env.extend(generated);
                StepOutcome::Ready(env)
            },
            Fetched::Present(_) => StepOutcome::Fail(
                ResolveError { backend: BackendKind::Config, key: gk },
            ),
        },
    }
}

impl Env {
    /// One resolution against the recorded backend snapshots: either the
    /// next request the driver must perform, a decode failure, or the
    /// final environment map — exactly as `spec_resolve` says.
    pub fn fetch(
        config: &Store,
        secrets: &Store,
        service: &str,
        metadata: &Option<Info>,
        incl: &Vec<CompiledPattern>,
        excl: &Vec<CompiledPattern>,
        overrides: &EnvMap,
    ) -> (r: Outcome)
        requires
            config.wf(),
            secrets.wf(),
            overrides.wf(),
        ensures
            outcome_view(&r) == spec_resolve(
                config@,
                secrets@,
                service@,
                spec_meta_view(metadata),
                pattern_sources(incl@),
                pattern_sources(excl@),
                overrides@,
            ),
            outcome_wf(&r),
    {
        let mut env: EnvMap = SMap::new();
        match metadata {
            Some(info) => {
                env.insert(String::from_str("RANCHER_IP"), info.container.primary_ip.clone());
                env.insert(String::from_str("STATSD_HOST"), info.host.labels.fqdn.clone());
            },
            None => {},
        }
        proof {
            assert(env@ =~= spec_meta_env(spec_meta_view(metadata)));
        }
        let step = fetch_versioned(config, BackendKind::Config, "global", env);
        let env = match step {
            StepOutcome::Ready(e) => e,
            StepOutcome::Need(q) => return Outcome::Need(q),
            StepOutcome::Fail(e) => return Outcome::Fail(e),
        };
        let step = fetch_versioned(secrets, BackendKind::Secrets, "global", env);
        let env = match step {
            StepOutcome::Ready(e) => e,
            StepOutcome::Need(q) => return Outcome::Need(q),
            StepOutcome::Fail(e) => return Outcome::Fail(e),
        };
        let step = expand_dependencies(config, service, env);
        let env = match step {
            StepOutcome::Ready(e) => e,
            StepOutcome::Need(q) => return Outcome::Need(q),
            StepOutcome::Fail(e) => return Outcome::Fail(e),
        };
        let step = fetch_generated(config, service, env);
        let env = match step {
            StepOutcome::Ready(e) => e,
            StepOutcome::Need(q) => return Outcome::Need(q),
            StepOutcome::Fail(e) => return Outcome::Fail(e),
        };
        let step = fetch_versioned(config, BackendKind::Config, service, env);
        let env = match step {
            StepOutcome::Ready(e) => e,
            StepOutcome::Need(q) => return Outcome::Need(q),
            StepOutcome::Fail(e) => return Outcome::Fail(e),
        };
        let step = fetch_versioned(secrets, BackendKind::Secrets, service, env);
        let env = match step {
            StepOutcome::Ready(e) => e,
            StepOutcome::Need(q) => return Outcome::Need(q),
            StepOutcome::Fail(e) => return Outcome::Fail(e),
        };
        let mut out = filtered(&env, incl, excl);
        out.extend(overrides.duplicate());
        Outcome::Done(Env { map: out })
    }
}

} // verus!
