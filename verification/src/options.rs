//! The execution request: the options an execution runs with, their
//! invariant (an instruction and a file reference never both present,
//! the unsafe bypass and an autonomy level never both present), and the
//! validation that turns a caller's raw tool arguments into options —
//! or rejects them before any process is launched.

use vstd::prelude::*;
use vstd::string::StringExecFns;
use crate::text::{eq_str, trim_str, trimmed_of};

verus! {

/// Fully resolved execution options.
#[derive(Debug, Clone)]
pub struct Options {
    pub prompt: Option<String>,
    pub file: Option<String>,
    pub working_dir: String,
    pub session_id: Option<String>,
    pub auto: Option<String>,
    pub model: Option<String>,
    pub enabled_tools: Option<String>,
    pub disabled_tools: Option<String>,
    pub additional_args: Vec<String>,
    pub timeout_secs: Option<u64>,
    pub reasoning_effort: Option<String>,
    pub use_spec: bool,
    pub spec_model: Option<String>,
    pub skip_permissions_unsafe: bool,
    pub output_format: Option<String>,
}

/// The mathematical image of the options.
pub ghost struct OptionsView {
    pub prompt: Option<Seq<char>>,
    pub file: Option<Seq<char>>,
    pub working_dir: Seq<char>,
    pub session_id: Option<Seq<char>>,
    pub auto: Option<Seq<char>>,
    pub model: Option<Seq<char>>,
    pub enabled_tools: Option<Seq<char>>,
    pub disabled_tools: Option<Seq<char>>,
    pub additional_args: Seq<Seq<char>>,
    pub timeout_secs: Option<u64>,
    pub reasoning_effort: Option<Seq<char>>,
    pub use_spec: bool,
    pub spec_model: Option<Seq<char>>,
    pub skip_permissions_unsafe: bool,
    pub output_format: Option<Seq<char>>,
}

impl View for Options {
    type V = OptionsView;

    open spec fn view(&self) -> OptionsView {
        OptionsView {
            prompt: self.prompt.deep_view(),
            file: self.file.deep_view(),
            working_dir: self.working_dir@,
            session_id: self.session_id.deep_view(),
            auto: self.auto.deep_view(),
            model: self.model.deep_view(),
            enabled_tools: self.enabled_tools.deep_view(),
            disabled_tools: self.disabled_tools.deep_view(),
            additional_args: self.additional_args.deep_view(),
            timeout_secs: self.timeout_secs,
            reasoning_effort: self.reasoning_effort.deep_view(),
            use_spec: self.use_spec,
            spec_model: self.spec_model.deep_view(),
            skip_permissions_unsafe: self.skip_permissions_unsafe,
            output_format: self.output_format.deep_view(),
        }
    }
}

/// The invariant every request must satisfy: instruction and file
/// reference are mutually exclusive, and so are the unsafe bypass and
/// an autonomy level.
pub open spec fn options_wf(o: OptionsView) -> bool {
    &&& !(o.prompt is Some && o.file is Some)
    &&& !(o.skip_permissions_unsafe && o.auto is Some)
}

/// The raw tool arguments the validation consumes. Path fields are
/// resolved by the caller beforehand; everything here is a plain value.
pub struct ToolArgs {
    pub prompt: Option<String>,
    pub session_id: Option<String>,
    pub auto: Option<String>,
    pub model: Option<String>,
    pub enabled_tools: Option<String>,
    pub disabled_tools: Option<String>,
    pub timeout_secs: Option<u64>,
    pub reasoning_effort: Option<String>,
    pub use_spec: Option<bool>,
    pub spec_model: Option<String>,
    pub skip_permissions_unsafe: Option<bool>,
    pub output_format: Option<String>,
}

/// The mathematical image of the raw arguments.
pub ghost struct ToolArgsView {
    pub prompt: Option<Seq<char>>,
    pub session_id: Option<Seq<char>>,
    pub auto: Option<Seq<char>>,
    pub model: Option<Seq<char>>,
    pub enabled_tools: Option<Seq<char>>,
    pub disabled_tools: Option<Seq<char>>,
    pub timeout_secs: Option<u64>,
    pub reasoning_effort: Option<Seq<char>>,
    pub use_spec: Option<bool>,
    pub spec_model: Option<Seq<char>>,
    pub skip_permissions_unsafe: Option<bool>,
    pub output_format: Option<Seq<char>>,
}

impl View for ToolArgs {
    type V = ToolArgsView;

    open spec fn view(&self) -> ToolArgsView {
        ToolArgsView {
            prompt: self.prompt.deep_view(),
            session_id: self.session_id.deep_view(),
            auto: self.auto.deep_view(),
            model: self.model.deep_view(),
            enabled_tools: self.enabled_tools.deep_view(),
            disabled_tools: self.disabled_tools.deep_view(),
            timeout_secs: self.timeout_secs,
            reasoning_effort: self.reasoning_effort.deep_view(),
            use_spec: self.use_spec,
            spec_model: self.spec_model.deep_view(),
            skip_permissions_unsafe: self.skip_permissions_unsafe,
            output_format: self.output_format.deep_view(),
        }
    }
}

pub open spec fn missing_prompt_msg() -> Seq<char> {
    "Either PROMPT or file parameter is required"@
}

pub open spec fn blank_prompt_msg() -> Seq<char> {
    "PROMPT must be a non-empty, non-whitespace string"@
}

pub open spec fn exclusive_prompt_msg() -> Seq<char> {
    "PROMPT and file are mutually exclusive, provide only one"@
}

pub open spec fn exclusive_bypass_msg() -> Seq<char> {
    "skip_permissions_unsafe cannot be combined with auto parameter"@
}

/// What the early request validation decides, in its exact order:
/// neither instruction nor file; a blank instruction; both at once;
/// then the unsafe bypass combined with an autonomy level.
pub open spec fn validate_request_result(
    prompt: Option<Seq<char>>,
    file_given: bool,
    skip_permissions_unsafe: bool,
    auto_given: bool,
) -> Result<(), Seq<char>> {
    if prompt is None && !file_given {
        Err(missing_prompt_msg())
    } else if prompt matches Some(p) && !file_given && trimmed_of(p).len() == 0 {
        Err(blank_prompt_msg())
    } else if prompt is Some && file_given {
        Err(exclusive_prompt_msg())
    } else if skip_permissions_unsafe && auto_given {
        Err(exclusive_bypass_msg())
    } else {
        Ok(())
    }
}

/// Reject a request that names both an instruction and a file, neither,
/// a blank instruction, or the unsafe bypass together with an autonomy
/// level — all before any process is launched.
pub fn validate_request(
    prompt: &Option<String>,
    file_given: bool,
    skip_permissions_unsafe: bool,
    auto_given: bool,
) -> (r: Result<(), String>)
    ensures
        ({
            let expected = validate_request_result(
                prompt.deep_view(),
                file_given,
                skip_permissions_unsafe,
                auto_given,
            );
            match r {
                Ok(()) => expected is Ok,
                Err(m) => expected matches Err(em) && m@ == em,
            }
        }),
{
    match (prompt, file_given) {
        (None, false) => {
            return Err(String::from_str("Either PROMPT or file parameter is required"));
        },
        (Some(p), false) => {
            let t = trim_str(p.as_str());
            if t.is_empty() {
                return Err(
                    String::from_str("PROMPT must be a non-empty, non-whitespace string"),
                );
            }
        },
        (Some(_), true) => {
            return Err(
                String::from_str("PROMPT and file are mutually exclusive, provide only one"),
            );
        },
        _ => (),
    }
    if skip_permissions_unsafe && auto_given {
        return Err(
            String::from_str("skip_permissions_unsafe cannot be combined with auto parameter"),
        );
    }
    Ok(())
}

/// An empty string stands for an absent value.
pub open spec fn filter_empty(o: Option<Seq<char>>) -> Option<Seq<char>> {
    match o {
        Some(s) => if s.len() > 0 {
            Some(s)
        } else {
            None
        },
        None => None,
    }
}

fn filter_empty_exec(o: Option<String>) -> (r: Option<String>)
    ensures
        r.deep_view() == filter_empty(o.deep_view()),
{
    match o {
        Some(s) => {
            if s.as_str().is_empty() {
                None
            } else {
                Some(s)
            }
        },
        None => None,
    }
}

/// A permission or effort level the tool accepts.
pub open spec fn valid_level(l: Seq<char>) -> bool {
    l == "low"@ || l == "medium"@ || l == "high"@
}

/// An output format the tool accepts.
pub open spec fn valid_format(f: Seq<char>) -> bool {
    f == "stream-json"@ || f == "stream-jsonrpc"@
}

pub open spec fn invalid_auto_msg(l: Seq<char>) -> Seq<char> {
    "Invalid auto level: '"@ + l + "'. Must be one of: low, medium, high"@
}

pub open spec fn invalid_reasoning_msg(l: Seq<char>) -> Seq<char> {
    "Invalid reasoning_effort: '"@ + l + "'. Must be one of: low, medium, high"@
}

pub open spec fn invalid_format_msg(f: Seq<char>) -> Seq<char> {
    "Invalid output_format: '"@ + f + "'. Must be one of: stream-json, stream-jsonrpc"@
}

fn level_ok(l: &String) -> (r: bool)
    ensures
        r == valid_level(l@),
{
    if eq_str(l.as_str(), "low") {
        true
    } else if eq_str(l.as_str(), "medium") {
        true
    } else {
        eq_str(l.as_str(), "high")
    }
}

/// What building the options from validated raw arguments yields:
/// empty strings filtered out, the levels and format checked, and the
/// resolved working directory, file reference and configured extra
/// arguments attached.
pub open spec fn build_options_result(
    a: ToolArgsView,
    working_dir: Seq<char>,
    file: Option<Seq<char>>,
    additional_args: Seq<Seq<char>>,
) -> Result<OptionsView, Seq<char>> {
    let auto = filter_empty(a.auto);
    let reasoning = filter_empty(a.reasoning_effort);
    let format = filter_empty(a.output_format);
    if auto is Some && !valid_level(auto->0) {
        Err(invalid_auto_msg(auto->0))
    } else if reasoning is Some && !valid_level(reasoning->0) {
        Err(invalid_reasoning_msg(reasoning->0))
    } else if format is Some && !valid_format(format->0) {
        Err(invalid_format_msg(format->0))
    } else {
        Ok(
            OptionsView {
                prompt: a.prompt,
                file: file,
                working_dir: working_dir,
                session_id: filter_empty(a.session_id),
                auto: auto,
                model: filter_empty(a.model),
                enabled_tools: filter_empty(a.enabled_tools),
                disabled_tools: filter_empty(a.disabled_tools),
                additional_args: additional_args,
                timeout_secs: a.timeout_secs,
                reasoning_effort: reasoning,
                use_spec: a.use_spec == Some(true),
                spec_model: filter_empty(a.spec_model),
                skip_permissions_unsafe: a.skip_permissions_unsafe == Some(true),
                output_format: format,
            },
        )
    }
}

/// Build the execution options from validated raw arguments, the
/// resolved working directory and file reference, and the configured
/// extra arguments. A request that passed the early validation yields
/// options that satisfy the request invariant.
pub fn build_options(
    args: ToolArgs,
    working_dir: String,
    file: Option<String>,
    additional_args: Vec<String>,
) -> (r: Result<Options, String>)
    ensures
        ({
            let expected = build_options_result(
                args@,
                working_dir@,
                file.deep_view(),
                additional_args.deep_view(),
            );
            match r {
                Ok(o) => expected == Ok::<OptionsView, Seq<char>>(o@),
                Err(m) => expected matches Err(em) && m@ == em,
            }
        }),
        ({
            let early = validate_request_result(
                args@.prompt,
                file.deep_view() is Some,
                args@.skip_permissions_unsafe == Some(true),
                args@.auto is Some,
            );
            early is Ok ==> (r matches Ok(o) ==> options_wf(o@))
        }),
{
    let auto = filter_empty_exec(args.auto);
    let reasoning = filter_empty_exec(args.reasoning_effort);
    let format = filter_empty_exec(args.output_format);
    if let Some(l) = &auto {
        if !level_ok(l) {
            let mut m = String::from_str("Invalid auto level: '");
            m.append(l.as_str());
            m.append("'. Must be one of: low, medium, high");
            proof {
                assert(m@ =~= invalid_auto_msg(l@));
            }
            return Err(m);
        }
    }
    if let Some(l) = &reasoning {
        if !level_ok(l) {
            let mut m = String::from_str("Invalid reasoning_effort: '");
            m.append(l.as_str());
            m.append("'. Must be one of: low, medium, high");
            proof {
                assert(m@ =~= invalid_reasoning_msg(l@));
            }
            return Err(m);
        }
    }
    if let Some(f) = &format {
        let ok = if eq_str(f.as_str(), "stream-json") {
            true
        } else {
            eq_str(f.as_str(), "stream-jsonrpc")
        };
        if !ok {
            let mut m = String::from_str("Invalid output_format: '");
            m.append(f.as_str());
            m.append("'. Must be one of: stream-json, stream-jsonrpc");
            proof {
                assert(m@ =~= invalid_format_msg(f@));
            }
            return Err(m);
        }
    }
    let use_spec = match args.use_spec {
        Some(b) => b,
        None => false,
    };
    let skip = match args.skip_permissions_unsafe {
        Some(b) => b,
        None => false,
    };
    Ok(
        Options {
            prompt: args.prompt,
            file: file,
            working_dir: working_dir,
            session_id: filter_empty_exec(args.session_id),
            auto: auto,
            model: filter_empty_exec(args.model),
            enabled_tools: filter_empty_exec(args.enabled_tools),
            disabled_tools: filter_empty_exec(args.disabled_tools),
            additional_args: additional_args,
            timeout_secs: args.timeout_secs,
            reasoning_effort: reasoning,
            use_spec: use_spec,
            spec_model: filter_empty_exec(args.spec_model),
            skip_permissions_unsafe: skip,
            output_format: format,
        },
    )
}

} // verus!
