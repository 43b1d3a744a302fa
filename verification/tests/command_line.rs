//! The deterministic argument ordering the subprocess is launched with.

use droid_mcp_rs::command::build_args;
use droid_mcp_rs::options::Options;

fn base_options() -> Options {
    Options {
        prompt: Some(String::from("do it")),
        file: None,
        working_dir: String::from("/work"),
        session_id: None,
        auto: None,
        model: None,
        enabled_tools: None,
        disabled_tools: None,
        additional_args: Vec::new(),
        timeout_secs: None,
        reasoning_effort: None,
        use_spec: false,
        spec_model: None,
        skip_permissions_unsafe: false,
        output_format: None,
    }
}

#[test]
fn minimal_options_yield_prompt_as_last_positional() {
    let opts = base_options();
    let args = build_args(&opts, &String::from("composed prompt"));
    assert_eq!(
        args,
        vec!["exec", "-o", "stream-json", "--cwd", "/work", "composed prompt"]
    );
}

#[test]
fn full_options_follow_the_fixed_order() {
    let mut opts = base_options();
    opts.session_id = Some(String::from("sess"));
    opts.auto = Some(String::from("medium"));
    opts.model = Some(String::from("custom:M-0"));
    opts.enabled_tools = Some(String::from("a,b"));
    opts.disabled_tools = Some(String::from("c"));
    opts.additional_args = vec![String::from("--extra"), String::from("v")];
    opts.reasoning_effort = Some(String::from("high"));
    opts.use_spec = true;
    opts.spec_model = Some(String::from("custom:S-1"));
    opts.output_format = Some(String::from("stream-jsonrpc"));
    let args = build_args(&opts, &String::from("p"));
    assert_eq!(
        args,
        vec![
            "exec",
            "-o",
            "stream-jsonrpc",
            "--cwd",
            "/work",
            "--auto",
            "medium",
            "-r",
            "high",
            "--use-spec",
            "--spec-model",
            "custom:S-1",
            "--model",
            "custom:M-0",
            "--enabled-tools",
            "a,b",
            "--disabled-tools",
            "c",
            "--session-id",
            "sess",
            "--extra",
            "v",
            "p",
        ]
    );
}

#[test]
fn unsafe_bypass_replaces_autonomy_flag() {
    let mut opts = base_options();
    opts.skip_permissions_unsafe = true;
    let args = build_args(&opts, &String::from("p"));
    assert_eq!(
        args,
        vec![
            "exec",
            "-o",
            "stream-json",
            "--cwd",
            "/work",
            "--skip-permissions-unsafe",
            "p",
        ]
    );
}

#[test]
fn file_reference_replaces_prompt_positional() {
    let mut opts = base_options();
    opts.prompt = None;
    opts.file = Some(String::from("/work/task.md"));
    let args = build_args(&opts, &String::from("unused"));
    assert_eq!(
        args,
        vec![
            "exec",
            "-o",
            "stream-json",
            "--cwd",
            "/work",
            "--file",
            "/work/task.md",
        ]
    );
}
