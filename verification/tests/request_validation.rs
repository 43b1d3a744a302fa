//! Request validation and option building.

use droid_mcp_rs::options::{build_options, validate_request, ToolArgs};

fn empty_args() -> ToolArgs {
    ToolArgs {
        prompt: None,
        session_id: None,
        auto: None,
        model: None,
        enabled_tools: None,
        disabled_tools: None,
        timeout_secs: None,
        reasoning_effort: None,
        use_spec: None,
        spec_model: None,
        skip_permissions_unsafe: None,
        output_format: None,
    }
}

#[test]
fn prompt_and_file_are_mutually_exclusive() {
    let r = validate_request(&Some(String::from("hi")), true, false, false);
    assert_eq!(
        r.unwrap_err(),
        "PROMPT and file are mutually exclusive, provide only one"
    );
}

#[test]
fn one_of_prompt_or_file_is_required() {
    let r = validate_request(&None, false, false, false);
    assert_eq!(r.unwrap_err(), "Either PROMPT or file parameter is required");
}

#[test]
fn blank_prompt_is_rejected() {
    let r = validate_request(&Some(String::from("   \n")), false, false, false);
    assert_eq!(
        r.unwrap_err(),
        "PROMPT must be a non-empty, non-whitespace string"
    );
}

#[test]
fn bypass_and_autonomy_are_mutually_exclusive() {
    let r = validate_request(&Some(String::from("task")), false, true, true);
    assert_eq!(
        r.unwrap_err(),
        "skip_permissions_unsafe cannot be combined with auto parameter"
    );
}

#[test]
fn valid_requests_pass() {
    assert!(validate_request(&Some(String::from("task")), false, false, false).is_ok());
    assert!(validate_request(&None, true, false, false).is_ok());
    assert!(validate_request(&Some(String::from("task")), false, true, false).is_ok());
}

#[test]
fn empty_strings_are_filtered_to_absent() {
    let mut args = empty_args();
    args.prompt = Some(String::from("task"));
    args.session_id = Some(String::from(""));
    args.model = Some(String::from(""));
    args.auto = Some(String::from(""));
    let opts = build_options(args, String::from("/w"), None, Vec::new()).unwrap();
    assert_eq!(opts.session_id, None);
    assert_eq!(opts.model, None);
    assert_eq!(opts.auto, None);
    assert!(!opts.use_spec);
    assert!(!opts.skip_permissions_unsafe);
}

#[test]
fn invalid_autonomy_level_is_rejected() {
    let mut args = empty_args();
    args.auto = Some(String::from("turbo"));
    let err = build_options(args, String::from("/w"), None, Vec::new()).unwrap_err();
    assert_eq!(
        err,
        "Invalid auto level: 'turbo'. Must be one of: low, medium, high"
    );
}

#[test]
fn invalid_reasoning_effort_is_rejected() {
    let mut args = empty_args();
    args.reasoning_effort = Some(String::from("max"));
    let err = build_options(args, String::from("/w"), None, Vec::new()).unwrap_err();
    assert_eq!(
        err,
        "Invalid reasoning_effort: 'max'. Must be one of: low, medium, high"
    );
}

#[test]
fn invalid_output_format_is_rejected() {
    let mut args = empty_args();
    args.output_format = Some(String::from("yaml"));
    let err = build_options(args, String::from("/w"), None, Vec::new()).unwrap_err();
    assert_eq!(
        err,
        "Invalid output_format: 'yaml'. Must be one of: stream-json, stream-jsonrpc"
    );
}

#[test]
fn valid_levels_and_format_are_kept() {
    let mut args = empty_args();
    args.prompt = Some(String::from("task"));
    args.auto = Some(String::from("medium"));
    args.reasoning_effort = Some(String::from("low"));
    args.output_format = Some(String::from("stream-jsonrpc"));
    args.use_spec = Some(true);
    let opts = build_options(
        args,
        String::from("/w"),
        None,
        vec![String::from("--x")],
    )
    .unwrap();
    assert_eq!(opts.auto.as_deref(), Some("medium"));
    assert_eq!(opts.reasoning_effort.as_deref(), Some("low"));
    assert_eq!(opts.output_format.as_deref(), Some("stream-jsonrpc"));
    assert_eq!(opts.working_dir, "/w");
    assert_eq!(opts.additional_args, vec!["--x"]);
    assert!(opts.use_spec);
}
