use avvoenv::consul;
use avvoenv::patterns::CompiledPattern;
use avvoenv::resolve::{current_key, deps_key, generated_key, snapshot_key, uri_key};
use avvoenv::rancher_metadata::{retry_delay, run_retry, Attempt, Container, Host, Info, Labels};
use avvoenv::vault::{
    choose_auth, ldap_login_path, token_from_file, AuthMethod, AuthResponse, AuthResponseWrapper,
    Client, LeaderResponse, Secret,
};

#[test]
fn config_urls_carry_the_kv_prefix_and_raw_query() {
    let client = consul::Client::new("http://127.0.0.1:8500");
    assert_eq!(
        client.url_for("config/global/current"),
        "http://127.0.0.1:8500/v1/kv/config/global/current?raw=true"
    );
    assert_eq!(client.url_for("/leading"), "http://127.0.0.1:8500/v1/kv/leading?raw=true");
}

#[test]
fn secrets_urls_carry_the_api_prefix() {
    let client = Client::new("https://vault:8200");
    assert_eq!(client.url_for("sys/leader"), "https://vault:8200/v1/sys/leader");
    assert_eq!(client.url_for("/sys/leader"), "https://vault:8200/v1/sys/leader");
}

#[test]
fn leader_redirect_retargets_requests() {
    let mut client = Client::new("https://standby:8200");
    let resp = Some(LeaderResponse {
        ha_enabled: true,
        is_self: false,
        leader_address: "https://leader:8200".to_string(),
    });
    client.apply_leader(&resp);
    assert_eq!(client.url_for("auth/ldap/login/amy"), "https://leader:8200/v1/auth/ldap/login/amy");
}

#[test]
fn leader_redirect_ignores_self_or_disabled_clusters() {
    let mut client = Client::new("https://standby:8200");
    client.apply_leader(&Some(LeaderResponse {
        ha_enabled: false,
        is_self: false,
        leader_address: "https://leader:8200".to_string(),
    }));
    assert_eq!(client.url_for("x"), "https://standby:8200/v1/x");
    client.apply_leader(&Some(LeaderResponse {
        ha_enabled: true,
        is_self: true,
        leader_address: "https://leader:8200".to_string(),
    }));
    assert_eq!(client.url_for("x"), "https://standby:8200/v1/x");
    client.apply_leader(&None);
    assert_eq!(client.url_for("x"), "https://standby:8200/v1/x");
}

#[test]
fn auth_responses_store_the_token() {
    let mut client = Client::new("https://vault:8200");
    client.apply_auth(AuthResponseWrapper {
        auth: AuthResponse { client_token: "returned-token".to_string() },
    });
    match &client.token {
        Some(t) => assert_eq!(t.reveal_value(), "returned-token"),
        None => panic!("token not stored"),
    }
}

#[test]
fn auth_precedence_is_fixed() {
    let secret = |s: &str| Secret::new(s.to_string());
    match choose_auth(true, Some("id".into()), Some(secret("u")), Some("role".into()), Some(secret("t"))) {
        AuthMethod::Dev => {},
        _ => panic!("interactive auth must win"),
    }
    match choose_auth(false, Some("id".into()), Some(secret("u")), Some("role".into()), Some(secret("t"))) {
        AuthMethod::AppId { app_id, app_user } => {
            assert_eq!(app_id, "id");
            assert_eq!(app_user.reveal_value(), "u");
        },
        _ => panic!("app credentials must come before kubernetes"),
    }
    match choose_auth(false, Some("id".into()), None, Some("role".into()), Some(secret("t"))) {
        AuthMethod::Kubernetes { role } => assert_eq!(role, "role"),
        _ => panic!("an app id without an app user must fall through"),
    }
    match choose_auth(false, None, None, None, Some(secret("t"))) {
        AuthMethod::Token { token } => assert_eq!(token.reveal_value(), "t"),
        _ => panic!("explicit token must come before the token file"),
    }
    match choose_auth(false, None, None, None, None) {
        AuthMethod::TokenFile => {},
        _ => panic!("the token file is the fallback"),
    }
}

#[test]
fn token_file_contents_are_trimmed() {
    let token = token_from_file(&Some("stored-token\n".to_string()));
    assert_eq!(token.unwrap().reveal_value(), "stored-token");
    assert!(token_from_file(&None).is_none());
}

#[test]
fn secrets_are_masked() {
    let s = Secret::new("abcdef".to_string());
    assert_eq!(s.masked(), "******");
    assert_eq!(Secret::new(String::new()).masked(), "");
}

#[test]
fn login_paths_name_the_user() {
    assert_eq!(ldap_login_path("amy"), "auth/ldap/login/amy");
}

#[test]
fn retry_backoff_is_linear_and_bounded() {
    assert_eq!(retry_delay(1), Some(1));
    assert_eq!(retry_delay(5), Some(5));
    assert_eq!(retry_delay(6), None);
}

fn sample_info() -> Info {
    Info {
        container: Container { primary_ip: "10.0.0.7".to_string() },
        host: Host { labels: Labels { fqdn: "host.example".to_string() } },
    }
}

#[test]
fn retry_succeeds_on_the_fifth_attempt() {
    let attempts = vec![
        Attempt::Failure("down".to_string()),
        Attempt::Failure("down".to_string()),
        Attempt::Failure("down".to_string()),
        Attempt::Failure("down".to_string()),
        Attempt::Success(Some(sample_info())),
        Attempt::Failure("unreached".to_string()),
    ];
    match run_retry(attempts) {
        Some(Ok(Some(info))) => assert_eq!(info.container.primary_ip, "10.0.0.7"),
        _ => panic!("retry must succeed on the fifth attempt"),
    }
}

#[test]
fn retry_gives_up_after_the_sixth_failure() {
    let attempts = vec![
        Attempt::Failure("e1".to_string()),
        Attempt::Failure("e2".to_string()),
        Attempt::Failure("e3".to_string()),
        Attempt::Failure("e4".to_string()),
        Attempt::Failure("e5".to_string()),
        Attempt::Failure("e6".to_string()),
    ];
    match run_retry(attempts) {
        Some(Err(e)) => assert_eq!(e, "e6"),
        _ => panic!("retry must give up with the last error"),
    }
}

#[test]
fn metadata_decomposes_into_two_entries() {
    let mut iter = sample_info().into_iter();
    assert_eq!(iter.next(), Some(("RANCHER_IP".to_string(), "10.0.0.7".to_string())));
    assert_eq!(iter.next(), Some(("STATSD_HOST".to_string(), "host.example".to_string())));
    assert_eq!(iter.next(), None);
}

#[test]
fn pattern_compilation_validates_the_text() {
    assert!(CompiledPattern::compile("APP_*").is_some());
    assert!(CompiledPattern::compile("a[!]").is_none());
    let p = CompiledPattern::compile("APP_*").unwrap();
    assert!(p.matches("APP_URL"));
    assert!(!p.matches("OTHER"));
}

#[test]
fn request_keys_are_exact() {
    assert_eq!(current_key("global"), "config/global/current");
    assert_eq!(snapshot_key("global", 7), "config/global/7");
    assert_eq!(deps_key("app"), "config/app/dependencies");
    assert_eq!(generated_key("app"), "config/app/generated");
    assert_eq!(uri_key("BILLING_BASE_URL"), "infrastructure/service-uris/BILLING_BASE_URL");
}
