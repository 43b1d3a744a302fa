//! The deterministic command line the subprocess is launched with. The
//! flag ordering is fixed: the execution subcommand, the output format,
//! the working directory, then (mutually exclusively) the unsafe bypass
//! or the autonomy flag, the reasoning effort, the planning mode and
//! its model override, the model, the tool lists, the session to
//! resume, the extra raw arguments verbatim, and finally either the
//! file reference or the composed prompt as the last positional
//! argument.

use vstd::prelude::*;
use vstd::string::StringExecFns;
use crate::options::{Options, OptionsView};

verus! {

/// The leading arguments: subcommand, output format, working directory.
pub open spec fn head_args(o: OptionsView) -> Seq<Seq<char>> {
    let fmt = match o.output_format {
        Some(f) => f,
        None => "stream-json"@,
    };
    seq!["exec"@, "-o"@, fmt, "--cwd"@, o.working_dir]
}

/// Either the unsafe bypass or the autonomy flag, never both.
pub open spec fn permission_args(o: OptionsView) -> Seq<Seq<char>> {
    if o.skip_permissions_unsafe {
        seq!["--skip-permissions-unsafe"@]
    } else {
        match o.auto {
            Some(a) => seq!["--auto"@, a],
            None => Seq::empty(),
        }
    }
}

pub open spec fn reasoning_args(o: OptionsView) -> Seq<Seq<char>> {
    match o.reasoning_effort {
        Some(r) => seq!["-r"@, r],
        None => Seq::empty(),
    }
}

/// Planning mode and its model override.
pub open spec fn spec_mode_args(o: OptionsView) -> Seq<Seq<char>> {
    if o.use_spec {
        match o.spec_model {
            Some(m) => seq!["--use-spec"@, "--spec-model"@, m],
            None => seq!["--use-spec"@],
        }
    } else {
        Seq::empty()
    }
}

pub open spec fn model_args(o: OptionsView) -> Seq<Seq<char>> {
    match o.model {
        Some(m) => seq!["--model"@, m],
        None => Seq::empty(),
    }
}

pub open spec fn tool_args(o: OptionsView) -> Seq<Seq<char>> {
    let enabled = match o.enabled_tools {
        Some(e) => seq!["--enabled-tools"@, e],
        None => Seq::<Seq<char>>::empty(),
    };
    let disabled = match o.disabled_tools {
        Some(d) => seq!["--disabled-tools"@, d],
        None => Seq::<Seq<char>>::empty(),
    };
    enabled + disabled
}

pub open spec fn session_args(o: OptionsView) -> Seq<Seq<char>> {
    match o.session_id {
        Some(s) => seq!["--session-id"@, s],
        None => Seq::empty(),
    }
}

/// The final positional part: the file reference, or the prompt text.
pub open spec fn input_args(o: OptionsView, prompt: Seq<char>) -> Seq<Seq<char>> {
    match o.file {
        Some(f) => seq!["--file"@, f],
        None => seq![prompt],
    }
}

/// The whole argument list, in its fixed order.
pub open spec fn args_of(o: OptionsView, prompt: Seq<char>) -> Seq<Seq<char>> {
    head_args(o) + permission_args(o) + reasoning_args(o) + spec_mode_args(o) + model_args(o)
        + tool_args(o) + session_args(o) + o.additional_args + input_args(o, prompt)
}

/// The fixed flags, before the extra raw arguments.
pub open spec fn flag_args(o: OptionsView) -> Seq<Seq<char>> {
    head_args(o) + permission_args(o) + reasoning_args(o) + spec_mode_args(o) + model_args(o)
        + tool_args(o) + session_args(o)
}

#[verifier::rlimit(100)]
fn build_flag_args(opts: &Options) -> (r: Vec<String>)
    ensures
        r.deep_view() == flag_args(opts@),
{
    let mut out: Vec<String> = Vec::new();
    out.push(String::from_str("exec"));
    out.push(String::from_str("-o"));
    match &opts.output_format {
        Some(f) => out.push(f.clone()),
        None => out.push(String::from_str("stream-json")),
    }
    out.push(String::from_str("--cwd"));
    out.push(opts.working_dir.clone());
    proof {
        assert(out.deep_view() =~~= head_args(opts@));
    }
    if opts.skip_permissions_unsafe {
        out.push(String::from_str("--skip-permissions-unsafe"));
    } else if let Some(a) = &opts.auto {
        out.push(String::from_str("--auto"));
        out.push(a.clone());
    }
    proof {
        assert(out.deep_view() =~~= head_args(opts@) + permission_args(opts@));
    }
    if let Some(rr) = &opts.reasoning_effort {
        out.push(String::from_str("-r"));
        out.push(rr.clone());
    }
    if opts.use_spec {
        out.push(String::from_str("--use-spec"));
        if let Some(m) = &opts.spec_model {
            out.push(String::from_str("--spec-model"));
            out.push(m.clone());
        }
    }
    proof {
        assert(out.deep_view() =~~= head_args(opts@) + permission_args(opts@) + reasoning_args(
            opts@,
        ) + spec_mode_args(opts@));
    }
    if let Some(m) = &opts.model {
        out.push(String::from_str("--model"));
        out.push(m.clone());
    }
    if let Some(e) = &opts.enabled_tools {
        out.push(String::from_str("--enabled-tools"));
        out.push(e.clone());
    }
    if let Some(d) = &opts.disabled_tools {
        out.push(String::from_str("--disabled-tools"));
        out.push(d.clone());
    }
    if let Some(s) = &opts.session_id {
        out.push(String::from_str("--session-id"));
        out.push(s.clone());
    }
    proof {
        assert(out.deep_view() =~~= flag_args(opts@));
    }
    out
}

/// Build the argument list the subprocess is spawned with.
pub fn build_args(opts: &Options, prompt: &String) -> (r: Vec<String>)
    ensures
        r.deep_view() == args_of(opts@, prompt@),
{
    let ghost mid = flag_args(opts@);
    let mut out = build_flag_args(opts);
    let n = opts.additional_args.len();
    let mut i: usize = 0;
    while i < n
        invariant
            i <= n,
            n == opts.additional_args.len(),
            out.deep_view() =~~= mid + opts@.additional_args.take(i as int),
        decreases n - i,
    {
        let ghost prev = out.deep_view();
        out.push(opts.additional_args[i].clone());
        proof {
            let ghost target = mid + opts@.additional_args.take(i + 1);
            assert(prev.len() == mid.len() + i);
            assert(out.deep_view().len() == prev.len() + 1);
            assert(out.deep_view()[prev.len() as int] == opts@.additional_args[i as int]);
            assert(forall|j: int| 0 <= j < prev.len() ==> out.deep_view()[j] == prev[j]);
            assert forall|j: int| 0 <= j < target.len() implies out.deep_view()[j] == target[j] by {
                if j < mid.len() {
                    assert(prev[j] == (mid + opts@.additional_args.take(i as int))[j]);
                } else if j < prev.len() {
                    assert(prev[j] == (mid + opts@.additional_args.take(i as int))[j]);
                    assert(prev[j] == opts@.additional_args.take(i as int)[j - mid.len()]);
                }
            }
            assert(out.deep_view() =~~= target);
        }
        i += 1;
    }
    proof {
        assert(opts@.additional_args.take(n as int) =~= opts@.additional_args);
    }
    match &opts.file {
        Some(f) => {
            out.push(String::from_str("--file"));
            out.push(f.clone());
        },
        None => {
            out.push(prompt.clone());
        },
    }
    proof {
        assert(out.deep_view() =~~= args_of(opts@, prompt@));
    }
    out
}

} // verus!
