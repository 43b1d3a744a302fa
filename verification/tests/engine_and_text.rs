//! Run-level helpers, number rendering, and the timeout result.

use droid_mcp_rs::config::{CustomModel, FactoryConfig, ServerConfig};
use droid_mcp_rs::engine::{
    apply_defaults, check_high_autonomy, combine_warnings, resolve_binary_name,
};
use droid_mcp_rs::options::Options;
use droid_mcp_rs::text::{dash_spaces, eq_str, i32_to_string, str_contains, u64_to_string};
use droid_mcp_rs::verdict::timeout_result;

fn plain_server_config(allow_high: bool) -> ServerConfig {
    ServerConfig {
        additional_args: Vec::new(),
        timeout_secs: None,
        default_auto: None,
        max_timeout_secs: None,
        allow_high_autonomy: allow_high,
    }
}

fn empty_options() -> Options {
    Options {
        prompt: Some(String::from("task")),
        file: None,
        working_dir: String::from("/w"),
        session_id: None,
        auto: None,
        model: None,
        enabled_tools: None,
        disabled_tools: None,
        additional_args: Vec::new(),
        timeout_secs: None,
        reasoning_effort: None,
        use_spec: false,
        spec_model: None,
        skip_permissions_unsafe: false,
        output_format: None,
    }
}

#[test]
fn defaults_fill_unset_model_auto_and_timeout() {
    let server = plain_server_config(true);
    let factory = FactoryConfig {
        custom_models: vec![CustomModel {
            model_display_name: String::from("Big GPT"),
            model: String::from("gpt-9"),
            provider: String::from("p"),
        }],
    };
    let mut opts = empty_options();
    apply_defaults(&mut opts, &server, &factory);
    assert_eq!(opts.model.as_deref(), Some("custom:Big-GPT-0"));
    assert_eq!(opts.auto.as_deref(), Some("high"));
    assert_eq!(opts.timeout_secs, Some(600));
}

#[test]
fn explicit_values_survive_default_application() {
    let server = plain_server_config(true);
    let factory = FactoryConfig { custom_models: Vec::new() };
    let mut opts = empty_options();
    opts.model = Some(String::from("mine"));
    opts.auto = Some(String::from("low"));
    opts.timeout_secs = Some(42);
    apply_defaults(&mut opts, &server, &factory);
    assert_eq!(opts.model.as_deref(), Some("mine"));
    assert_eq!(opts.auto.as_deref(), Some("low"));
    assert_eq!(opts.timeout_secs, Some(42));
}

#[test]
fn forbidden_high_autonomy_is_refused_before_launch() {
    let cfg = plain_server_config(false);
    let err = check_high_autonomy(&Some(String::from("high")), &cfg).unwrap_err();
    assert_eq!(
        err,
        "High autonomy level is disabled in configuration. Set allow_high_autonomy=true to enable."
    );
    assert!(check_high_autonomy(&Some(String::from("low")), &cfg).is_ok());
    assert!(check_high_autonomy(&None, &cfg).is_ok());
    let open = plain_server_config(true);
    assert!(check_high_autonomy(&Some(String::from("high")), &open).is_ok());
}

#[test]
fn warnings_merge_on_separate_lines() {
    assert_eq!(
        combine_warnings(Some(String::from("a")), Some(String::from("b"))).as_deref(),
        Some("a\nb")
    );
    assert_eq!(
        combine_warnings(Some(String::from("a")), None).as_deref(),
        Some("a")
    );
    assert_eq!(
        combine_warnings(None, Some(String::from("b"))).as_deref(),
        Some("b")
    );
    assert_eq!(combine_warnings(None, None), None);
}

#[test]
fn timeout_result_states_the_elapsed_seconds() {
    let r = timeout_result(1, None, None, None);
    assert!(!r.success);
    assert_eq!(r.session_id, "");
    assert_eq!(r.agent_messages, "");
    assert!(r.all_messages.is_empty());
    assert_eq!(r.error.as_deref(), Some("Timeout after 1 seconds"));
    assert_eq!(
        r.warnings.as_deref(),
        Some("Droid execution timed out after 1 seconds")
    );
}

#[test]
fn timeout_result_keeps_earlier_warnings_in_order() {
    let r = timeout_result(
        90,
        Some(String::from("context warning")),
        Some(String::from("model warning")),
        Some(String::from("Model: m")),
    );
    assert_eq!(
        r.warnings.as_deref(),
        Some("context warning\nmodel warning\nDroid execution timed out after 90 seconds")
    );
    assert_eq!(r.error.as_deref(), Some("Timeout after 90 seconds"));
    assert_eq!(r.model_info.as_deref(), Some("Model: m"));
}

#[test]
fn decimal_rendering_is_exact() {
    assert_eq!(u64_to_string(0), "0");
    assert_eq!(u64_to_string(7), "7");
    assert_eq!(u64_to_string(600), "600");
    assert_eq!(u64_to_string(1234567890), "1234567890");
    assert_eq!(u64_to_string(u64::MAX), "18446744073709551615");
    assert_eq!(i32_to_string(0), "0");
    assert_eq!(i32_to_string(-42), "-42");
    assert_eq!(i32_to_string(i32::MIN), "-2147483648");
    assert_eq!(i32_to_string(i32::MAX), "2147483647");
}

#[test]
fn string_helpers_compare_exactly() {
    assert!(eq_str("abc", "abc"));
    assert!(!eq_str("abc", "abd"));
    assert!(!eq_str("abc", "ab"));
    assert!(str_contains("big gpt model", "gpt"));
    assert!(!str_contains("falcon", "gpt"));
    assert!(str_contains("anything", ""));
    assert_eq!(dash_spaces("My GPT Model"), "My-GPT-Model");
    assert_eq!(dash_spaces("plain"), "plain");
}

#[test]
fn binary_override_wins_only_when_not_blank() {
    assert_eq!(resolve_binary_name(&None, "droid"), "droid");
    assert_eq!(
        resolve_binary_name(&Some(String::from("   ")), "droid"),
        "droid"
    );
    assert_eq!(
        resolve_binary_name(&Some(String::from("  /opt/bin/other  ")), "droid"),
        "/opt/bin/other"
    );
}
