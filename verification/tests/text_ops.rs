use avvoenv::commands::CommandResult;
use avvoenv::format::{escape_properties_key, escape_properties_value, Format};
use avvoenv::text::{canonical_service_name, normalize_dep, parse_add, str_eq, trim_end_ws, u64_to_string};

#[test]
fn normalizes_dependency_names() {
    assert_eq!(normalize_dep("billing"), "BILLING");
    assert_eq!(normalize_dep("billing-api"), "BILLING_API");
    assert_eq!(normalize_dep("a-b-c"), "A_B_C");
    assert_eq!(normalize_dep(""), "");
}

#[test]
fn canonicalizes_service_names() {
    assert_eq!(canonical_service_name("My_Service"), "my-service");
    assert_eq!(canonical_service_name("billing"), "billing");
    assert_eq!(canonical_service_name("A_B"), "a-b");
}

#[test]
fn renders_versions_in_decimal() {
    assert_eq!(u64_to_string(0), "0");
    assert_eq!(u64_to_string(1), "1");
    assert_eq!(u64_to_string(42), "42");
    assert_eq!(u64_to_string(1000), "1000");
    assert_eq!(u64_to_string(u64::MAX), "18446744073709551615");
}

#[test]
fn splits_manual_overrides() {
    assert_eq!(parse_add("KEY=VALUE"), ("KEY".to_string(), "VALUE".to_string()));
    assert_eq!(parse_add("KEY"), ("KEY".to_string(), "".to_string()));
    assert_eq!(parse_add("A=b=c"), ("A".to_string(), "b=c".to_string()));
    assert_eq!(parse_add("=v"), ("".to_string(), "v".to_string()));
}

#[test]
fn trims_trailing_whitespace() {
    assert_eq!(trim_end_ws("token\n"), "token");
    assert_eq!(trim_end_ws("token \r\n\t"), "token");
    assert_eq!(trim_end_ws("  token"), "  token");
    assert_eq!(trim_end_ws(""), "");
}

#[test]
fn compares_strings() {
    assert!(str_eq("abc", "abc"));
    assert!(!str_eq("abc", "abd"));
    assert!(!str_eq("abc", "ab"));
    assert!(str_eq("", ""));
}

#[test]
fn parses_format_names() {
    assert_eq!(Format::parse("env"), Some(Format::Env));
    assert_eq!(Format::parse(" YAML \n"), Some(Format::Yaml));
    assert_eq!(Format::parse("hocon"), Some(Format::Hocon));
    assert_eq!(Format::parse("hcon"), Some(Format::Hocon));
    assert_eq!(Format::parse("json"), Some(Format::Json));
    assert_eq!(Format::parse("properties"), Some(Format::Properties));
    assert_eq!(Format::parse("defaults"), Some(Format::Defaults));
    assert_eq!(Format::parse("toml"), None);
}

#[test]
fn picks_format_for_extension() {
    assert_eq!(Format::for_extension("sh"), Format::Defaults);
    assert_eq!(Format::for_extension("yml"), Format::Yaml);
    assert_eq!(Format::for_extension("json"), Format::Json);
    assert_eq!(Format::for_extension("txt"), Format::Env);
}

#[test]
fn escapes_properties_keys_and_values() {
    assert_eq!(escape_properties_key("a b"), "a\\ b");
    assert_eq!(escape_properties_key("a\\b\nc\td\r"), "a\\\\b\\nc\\td\\r");
    assert_eq!(escape_properties_value("a b"), "a b");
    assert_eq!(escape_properties_value("a\tb"), "a\\tb");
    assert_eq!(escape_properties_key(""), "");
}

#[test]
fn command_results_classify_errors() {
    assert!(CommandResult::ErrorWithHelp.is_error());
    assert!(CommandResult::ErrorWithMessage("m".to_string()).is_error());
    assert!(CommandResult::ErrorWithHelpMessage("m".to_string()).is_error());
    assert!(!CommandResult::Success.is_error());
    assert!(!CommandResult::SuccessWithMessage("m".to_string()).is_error());
    assert!(!CommandResult::SuccessWithHelp.is_error());
}
