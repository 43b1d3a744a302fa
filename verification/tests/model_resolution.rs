//! Model listing, default-model choice, and custom-reference resolution.

use droid_mcp_rs::config::{CustomModel, FactoryConfig};
use droid_mcp_rs::models::{
    get_default_model, get_model_info, list_custom_models, parse_custom_index,
    server_instructions,
};

fn model(name: &str, id: &str, provider: &str) -> CustomModel {
    CustomModel {
        model_display_name: String::from(name),
        model: String::from(id),
        provider: String::from(provider),
    }
}

fn registry(models: Vec<CustomModel>) -> FactoryConfig {
    FactoryConfig { custom_models: models }
}

#[test]
fn listing_builds_slug_references() {
    let cfg = registry(vec![
        model("My GPT Model", "gpt-4", "azure"),
        model("Falcon", "falcon-3", "aviary"),
    ]);
    let listing = list_custom_models(&cfg);
    assert_eq!(
        listing,
        vec![
            "My GPT Model (custom:My-GPT-Model-0)",
            "Falcon (custom:Falcon-1)",
        ]
    );
}

#[test]
fn default_model_prefers_gpt_family_case_insensitively() {
    let cfg = registry(vec![
        model("Falcon", "falcon-3", "aviary"),
        model("Big GPT", "whatever", "azure"),
    ]);
    assert_eq!(get_default_model(&cfg).as_deref(), Some("custom:Big-GPT-1"));
}

#[test]
fn default_model_falls_back_to_first_entry() {
    let cfg = registry(vec![
        model("Falcon", "falcon-3", "aviary"),
        model("Other", "other-9", "x"),
    ]);
    assert_eq!(get_default_model(&cfg).as_deref(), Some("custom:Falcon-0"));
}

#[test]
fn default_model_is_absent_without_registry() {
    let cfg = registry(vec![]);
    assert_eq!(get_default_model(&cfg), None);
}

#[test]
fn custom_index_splits_on_last_hyphen() {
    assert_eq!(parse_custom_index("custom:Name-0"), Some(0));
    assert_eq!(parse_custom_index("custom:GPT-5-2"), Some(2));
    assert_eq!(parse_custom_index("custom:X-+3"), Some(3));
    assert_eq!(parse_custom_index("custom:X-"), None);
    assert_eq!(parse_custom_index("custom:X"), None);
    assert_eq!(parse_custom_index("custom:X-12a"), None);
    assert_eq!(parse_custom_index("custom:X-99999999999999999999999"), None);
    assert_eq!(parse_custom_index("plain-1"), None);
}

#[test]
fn model_info_resolves_custom_reference() {
    let cfg = registry(vec![
        model("First", "f-1", "p1"),
        model("Second", "s-2", "p2"),
    ]);
    let (display, warning) = get_model_info(&Some(String::from("custom:Second-1")), &cfg);
    assert_eq!(display.as_deref(), Some("Second [p2] (s-2)"));
    assert!(warning.is_none());
}

#[test]
fn model_info_falls_back_on_broken_reference() {
    let cfg = registry(vec![model("First", "f-1", "p1")]);
    let (display, warning) = get_model_info(&Some(String::from("custom:First-9")), &cfg);
    assert_eq!(display.as_deref(), Some("First [p1] (f-1)"));
    let w = warning.unwrap();
    assert!(w.contains("Invalid custom model reference: 'custom:First-9'"));
    assert!(w.contains("Fallback to: First [p1] (f-1)"));
}

#[test]
fn model_info_shows_plain_model_as_given() {
    let cfg = registry(vec![]);
    let (display, warning) = get_model_info(&Some(String::from("falcon-large")), &cfg);
    assert_eq!(display.as_deref(), Some("Model: falcon-large"));
    assert!(warning.is_none());
}

#[test]
fn model_info_defaults_to_first_entry() {
    let cfg = registry(vec![model("First", "f-1", "p1")]);
    let (display, warning) = get_model_info(&None, &cfg);
    assert_eq!(display.as_deref(), Some("First [p1] (f-1)"));
    assert!(warning.is_none());
}

#[test]
fn model_info_warns_without_registry() {
    let cfg = registry(vec![]);
    let (display, warning) = get_model_info(&None, &cfg);
    assert_eq!(display.as_deref(), Some("Factory default model"));
    assert!(warning.unwrap().contains("No custom models configured"));
}

#[test]
fn model_info_last_hyphen_ambiguity_is_kept() {
    let cfg = registry(vec![
        model("First", "f-1", "p1"),
        model("Second", "s-2", "p2"),
    ]);
    let (display, warning) = get_model_info(&Some(String::from("custom:GPT-4-1")), &cfg);
    assert_eq!(display.as_deref(), Some("Second [p2] (s-2)"));
    assert!(warning.is_none());
}

#[test]
fn instructions_list_the_registry() {
    let base = "This server provides a droid tool for AI-assisted coding tasks. Use the droid tool to execute coding tasks via the Droid CLI with configurable autonomy levels. Set autonomy level via the 'auto' parameter (low, medium, high) to control operation permissions. Place a DROID.md file in the working directory for project-specific context.";
    assert_eq!(server_instructions(&Vec::new()), base);
    let models = vec![String::from("A (custom:A-0)"), String::from("B (custom:B-1)")];
    let expected = format!(
        "{}\n\nAvailable custom models from ~/.factory/config.json:\n  - A (custom:A-0)\n  - B (custom:B-1)",
        base
    );
    assert_eq!(server_instructions(&models), expected);
}
