//! Configuration resolution: defaults, cleaning, and timeout clamping.

use droid_mcp_rs::config::{
    default_additional_args, default_timeout_secs, effective_timeout_secs, factory_config,
    get_default_auto, server_config, CustomModel, FactoryConfig, ServerConfig,
};

fn cfg_with_timeout(t: Option<u64>) -> ServerConfig {
    ServerConfig {
        additional_args: Vec::new(),
        timeout_secs: t,
        default_auto: None,
        max_timeout_secs: None,
        allow_high_autonomy: true,
    }
}

#[test]
fn absent_config_file_falls_back_to_defaults() {
    let cfg = server_config(None);
    assert!(cfg.additional_args.is_empty());
    assert_eq!(cfg.timeout_secs, None);
    assert_eq!(cfg.default_auto, None);
    assert_eq!(cfg.max_timeout_secs, None);
    assert!(cfg.allow_high_autonomy);
}

#[test]
fn additional_args_are_trimmed_and_filtered() {
    let parsed = ServerConfig {
        additional_args: vec![
            String::from("  --flag "),
            String::from("   "),
            String::from("plain"),
            String::from(""),
        ],
        timeout_secs: Some(30),
        default_auto: Some(String::from("low")),
        max_timeout_secs: Some(40),
        allow_high_autonomy: false,
    };
    let cfg = server_config(Some(parsed));
    assert_eq!(cfg.additional_args, vec!["--flag", "plain"]);
    assert_eq!(cfg.timeout_secs, Some(30));
    assert!(!cfg.allow_high_autonomy);
    let copy = default_additional_args(&cfg);
    assert_eq!(copy, vec!["--flag", "plain"]);
}

#[test]
fn default_timeout_clamps_and_falls_back() {
    assert_eq!(default_timeout_secs(&cfg_with_timeout(None)), 600);
    assert_eq!(default_timeout_secs(&cfg_with_timeout(Some(0))), 600);
    assert_eq!(default_timeout_secs(&cfg_with_timeout(Some(50))), 50);
    assert_eq!(default_timeout_secs(&cfg_with_timeout(Some(3600))), 3600);
    assert_eq!(default_timeout_secs(&cfg_with_timeout(Some(9999))), 3600);
}

#[test]
fn effective_timeout_respects_request_and_ceiling() {
    let mut cfg = cfg_with_timeout(None);
    assert_eq!(effective_timeout_secs(None, &cfg), 600);
    assert_eq!(effective_timeout_secs(Some(59), &cfg), 59);
    assert_eq!(effective_timeout_secs(Some(99999), &cfg), 3600);
    cfg.max_timeout_secs = Some(30);
    assert_eq!(effective_timeout_secs(Some(59), &cfg), 30);
    assert_eq!(effective_timeout_secs(Some(10), &cfg), 10);
}

#[test]
fn default_auto_prefers_configured_level() {
    let mut cfg = cfg_with_timeout(None);
    assert_eq!(get_default_auto(&cfg).as_deref(), Some("high"));
    cfg.default_auto = Some(String::from("   "));
    assert_eq!(get_default_auto(&cfg).as_deref(), Some("high"));
    cfg.default_auto = Some(String::from(" low "));
    assert_eq!(get_default_auto(&cfg).as_deref(), Some(" low "));
}

#[test]
fn absent_registry_is_empty() {
    let cfg = factory_config(None);
    assert!(cfg.custom_models.is_empty());
}

#[test]
fn parsed_registry_is_kept_as_given() {
    let parsed = FactoryConfig {
        custom_models: vec![CustomModel {
            model_display_name: String::from("My Model"),
            model: String::from("m-1"),
            provider: String::from("prov"),
        }],
    };
    let cfg = factory_config(Some(parsed));
    assert_eq!(cfg.custom_models.len(), 1);
    assert_eq!(cfg.custom_models[0].model, "m-1");
}
