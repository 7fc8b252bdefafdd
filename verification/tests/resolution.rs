use avvoenv::env::{Env, EnvMap};
use avvoenv::patterns::CompiledPattern;
use avvoenv::rancher_metadata::{Container, Host, Info, Labels};
use avvoenv::resolve::{BackendKind, Outcome, Shape};
use avvoenv::smap::SMap;
use avvoenv::store::{Doc, Fetched, Store, Version};

fn table(entries: &[(&str, &str)]) -> Fetched {
    let mut m: EnvMap = SMap::new();
    for (k, v) in entries {
        m.insert((*k).to_string(), (*v).to_string());
    }
    Fetched::Present(Doc::Table(m))
}

fn record_absent(store: &mut Store, keys: &[&str]) {
    for k in keys {
        store.record((*k).to_string(), Fetched::Absent);
    }
}

/// A pair of stores where every key the pipeline asks about for service
/// `app` is recorded as absent.
fn empty_backends() -> (Store, Store) {
    let mut config = Store::new();
    let mut secrets = Store::new();
    record_absent(
        &mut config,
        &[
            "config/global/current",
            "config/global/1",
            "config/app/dependencies",
            "config/app/generated",
            "config/app/current",
            "config/app/1",
        ],
    );
    record_absent(&mut secrets, &["config/global/current", "config/global/1", "config/app/current", "config/app/1"]);
    (config, secrets)
}

fn resolve(config: &Store, secrets: &Store, incl: &[&str], excl: &[&str], overrides: &[(&str, &str)]) -> Outcome {
    let incl: Vec<CompiledPattern> = incl.iter().map(|p| CompiledPattern::compile(p).unwrap()).collect();
    let excl: Vec<CompiledPattern> = excl.iter().map(|p| CompiledPattern::compile(p).unwrap()).collect();
    let mut ovr: EnvMap = SMap::new();
    for (k, v) in overrides {
        ovr.insert((*k).to_string(), (*v).to_string());
    }
    Env::fetch(config, secrets, "app", &None, &incl, &excl, &ovr)
}

fn done(outcome: Outcome) -> Env {
    match outcome {
        Outcome::Done(env) => env,
        Outcome::Need(req) => panic!("unexpected request for {:?} {}", req.backend, req.key),
        Outcome::Fail(e) => panic!("unexpected failure: {}", e.message()),
    }
}

fn value(env: &Env, key: &str) -> Option<String> {
    env.vars().get(key).cloned()
}

#[test]
fn a_missing_version_pointer_defaults_to_version_one() {
    let (mut config, secrets) = empty_backends();
    config.record("config/global/1".to_string(), table(&[("A", "1")]));
    let env = done(resolve(&config, &secrets, &[], &[], &[]));
    assert_eq!(value(&env, "A"), Some("1".to_string()));
}

#[test]
fn the_version_pointer_selects_the_snapshot() {
    let (mut config, secrets) = empty_backends();
    config.record(
        "config/global/current".to_string(),
        Fetched::Present(Doc::Pointer(Version { version: 7 })),
    );
    config.record("config/global/7".to_string(), table(&[("A", "seven")]));
    let env = done(resolve(&config, &secrets, &[], &[], &[]));
    assert_eq!(value(&env, "A"), Some("seven".to_string()));
}

#[test]
fn reserved_bookkeeping_keys_are_stripped() {
    let (mut config, secrets) = empty_backends();
    config.record(
        "config/global/1".to_string(),
        table(&[("A", "1"), ("__timestamp__", "now"), ("__user__", "amy")]),
    );
    let env = done(resolve(&config, &secrets, &[], &[], &[]));
    assert_eq!(value(&env, "A"), Some("1".to_string()));
    assert_eq!(value(&env, "__timestamp__"), None);
    assert_eq!(value(&env, "__user__"), None);
}

#[test]
fn later_namespaces_override_earlier_ones() {
    let (mut config, secrets) = empty_backends();
    config.record("config/global/1".to_string(), table(&[("A", "1")]));
    config.record("config/app/1".to_string(), table(&[("A", "2")]));
    let env = done(resolve(&config, &secrets, &[], &[], &[]));
    assert_eq!(value(&env, "A"), Some("2".to_string()));
}

#[test]
fn secrets_override_configuration_within_a_namespace() {
    let (mut config, mut secrets) = empty_backends();
    config.record("config/app/1".to_string(), table(&[("DB", "plain")]));
    secrets.record("config/app/1".to_string(), table(&[("DB", "secret")]));
    let env = done(resolve(&config, &secrets, &[], &[], &[]));
    assert_eq!(value(&env, "DB"), Some("secret".to_string()));
}

#[test]
fn filtering_keeps_only_matching_names() {
    let (mut config, secrets) = empty_backends();
    config.record(
        "config/global/1".to_string(),
        table(&[("APP_URL", "x"), ("APP_SECRET", "y"), ("OTHER", "z")]),
    );
    let env = done(resolve(&config, &secrets, &["APP_*"], &["APP_SECRET"], &[]));
    assert_eq!(value(&env, "APP_URL"), Some("x".to_string()));
    assert_eq!(value(&env, "APP_SECRET"), None);
    assert_eq!(value(&env, "OTHER"), None);
    assert_eq!(env.vars().len(), 1);
}

#[test]
fn manual_overrides_bypass_the_filter() {
    let (config, secrets) = empty_backends();
    let env = done(resolve(&config, &secrets, &["APP_*"], &[], &[("OTHER", "z")]));
    assert_eq!(value(&env, "OTHER"), Some("z".to_string()));
}

#[test]
fn manual_overrides_win_over_fetched_values() {
    let (mut config, secrets) = empty_backends();
    config.record("config/global/1".to_string(), table(&[("A", "fetched")]));
    let env = done(resolve(&config, &secrets, &[], &[], &[("A", "forced")]));
    assert_eq!(value(&env, "A"), Some("forced".to_string()));
}

#[test]
fn dependencies_expand_to_url_entries() {
    let (mut config, secrets) = empty_backends();
    config.record(
        "config/app/dependencies".to_string(),
        Fetched::Present(Doc::List(vec!["billing".to_string()])),
    );
    config.record(
        "infrastructure/service-uris/BILLING_BASE_URL".to_string(),
        Fetched::Present(Doc::Text("http://billing".to_string())),
    );
    record_absent(&mut config, &["infrastructure/service-uris/BILLING_FRONTEND_URL"]);
    let env = done(resolve(&config, &secrets, &[], &[], &[]));
    assert_eq!(value(&env, "BILLING_BASE_URL"), Some("http://billing".to_string()));
    assert_eq!(value(&env, "BILLING_FRONTEND_URL"), None);
}

#[test]
fn hyphenated_dependencies_are_normalized() {
    let (mut config, secrets) = empty_backends();
    config.record(
        "config/app/dependencies".to_string(),
        Fetched::Present(Doc::List(vec!["billing-api".to_string()])),
    );
    config.record(
        "infrastructure/service-uris/BILLING_API_BASE_URL".to_string(),
        Fetched::Present(Doc::Text("http://billing-api".to_string())),
    );
    config.record(
        "infrastructure/service-uris/BILLING_API_FRONTEND_URL".to_string(),
        Fetched::Present(Doc::Text("http://front".to_string())),
    );
    let env = done(resolve(&config, &secrets, &[], &[], &[]));
    assert_eq!(value(&env, "BILLING_API_BASE_URL"), Some("http://billing-api".to_string()));
    assert_eq!(value(&env, "BILLING_API_FRONTEND_URL"), Some("http://front".to_string()));
}

#[test]
fn the_generated_document_is_merged() {
    let (mut config, secrets) = empty_backends();
    config.record("config/app/generated".to_string(), table(&[("GEN", "yes")]));
    let env = done(resolve(&config, &secrets, &[], &[], &[]));
    assert_eq!(value(&env, "GEN"), Some("yes".to_string()));
}

#[test]
fn metadata_contributes_its_two_entries() {
    let (config, secrets) = empty_backends();
    let meta = Some(Info {
        container: Container { primary_ip: "10.0.0.7".to_string() },
        host: Host { labels: Labels { fqdn: "host.example".to_string() } },
    });
    let outcome = Env::fetch(&config, &secrets, "app", &meta, &Vec::new(), &Vec::new(), &SMap::new());
    let env = done(outcome);
    assert_eq!(value(&env, "RANCHER_IP"), Some("10.0.0.7".to_string()));
    assert_eq!(value(&env, "STATSD_HOST"), Some("host.example".to_string()));
}

#[test]
fn an_unasked_key_is_requested_in_order() {
    let config = Store::new();
    let secrets = Store::new();
    match Env::fetch(&config, &secrets, "app", &None, &Vec::new(), &Vec::new(), &SMap::new()) {
        Outcome::Need(req) => {
            assert_eq!(req.backend, BackendKind::Config);
            assert_eq!(req.key, "config/global/current");
            assert_eq!(req.shape, Shape::Pointer);
        },
        _ => panic!("an empty snapshot must ask for the global version pointer"),
    }
}

#[test]
fn a_wrongly_shaped_document_fails_resolution() {
    let (mut config, secrets) = empty_backends();
    config.record(
        "config/global/current".to_string(),
        Fetched::Present(Doc::Text("not a pointer".to_string())),
    );
    match resolve(&config, &secrets, &[], &[], &[]) {
        Outcome::Fail(e) => {
            assert_eq!(e.backend, BackendKind::Config);
            assert_eq!(e.key, "config/global/current");
            assert!(e.message().contains("config/global/current"));
        },
        _ => panic!("a text document at the pointer key must fail"),
    }
}

#[test]
fn resolving_twice_yields_identical_maps() {
    let (mut config, mut secrets) = empty_backends();
    config.record("config/global/1".to_string(), table(&[("A", "1"), ("B", "x")]));
    secrets.record("config/app/1".to_string(), table(&[("B", "y")]));
    let first = done(resolve(&config, &secrets, &[], &[], &[("C", "c")]));
    let second = done(resolve(&config, &secrets, &[], &[], &[("C", "c")]));
    assert_eq!(first.vars().pairs, second.vars().pairs);
}
