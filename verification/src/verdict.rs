//! The verdict resolver: once the subprocess has exited, reconcile the
//! exit status, the signals gathered from the stream, and the buffer
//! state into the final result; and the distinct result a timed-out
//! execution yields.

use vstd::prelude::*;
use vstd::string::StringExecFns;
use crate::aggregate::{AggView, AggregationState};
use crate::text::{dec_str, i32_to_string, int_dec_str, u64_to_string};

verus! {

/// The terminal, immutable output handed back to the caller. An empty
/// session id means none was ever observed; `all_messages` holds the
/// serialized form of every archived event in order.
#[derive(Debug)]
pub struct DroidResult {
    pub success: bool,
    pub session_id: String,
    pub agent_messages: String,
    pub agent_messages_truncated: bool,
    pub all_messages: Vec<String>,
    pub all_messages_truncated: bool,
    pub error: Option<String>,
    pub warnings: Option<String>,
    pub model_info: Option<String>,
}

/// The mathematical image of the final result.
pub ghost struct DroidResultView {
    pub success: bool,
    pub session_id: Seq<char>,
    pub agent_messages: Seq<char>,
    pub agent_messages_truncated: bool,
    pub all_messages: Seq<Seq<char>>,
    pub all_messages_truncated: bool,
    pub error: Option<Seq<char>>,
    pub warnings: Option<Seq<char>>,
    pub model_info: Option<Seq<char>>,
}

impl View for DroidResult {
    type V = DroidResultView;

    open spec fn view(&self) -> DroidResultView {
        DroidResultView {
            success: self.success,
            session_id: self.session_id@,
            agent_messages: self.agent_messages@,
            agent_messages_truncated: self.agent_messages_truncated,
            all_messages: self.all_messages.deep_view(),
            all_messages_truncated: self.all_messages_truncated,
            error: self.error.deep_view(),
            warnings: self.warnings.deep_view(),
            model_info: self.model_info.deep_view(),
        }
    }
}

/// How `Option<i32>` renders in the exit-status message.
pub open spec fn opt_code_text(code: Option<i32>) -> Seq<char> {
    match code {
        Some(c) => "Some("@ + int_dec_str(c as int) + ")"@,
        None => "None"@,
    }
}

/// The message composed from a failing exit status, with the diagnostic
/// buffer appended only when it is non-empty.
pub open spec fn exit_error_text(code: Option<i32>, stderr: Seq<char>) -> Seq<char> {
    if stderr.len() > 0 {
        "droid exited with code "@ + opt_code_text(code) + ". stderr: "@ + stderr
    } else {
        "droid exited with code "@ + opt_code_text(code)
    }
}

pub open spec fn no_session_error_text() -> Seq<char> {
    "No session_id received from droid"@
}

pub open spec fn no_messages_error_text() -> Seq<char> {
    "No agent messages received from droid"@
}

/// The final success flag: a run succeeds only when no error event was
/// seen, the process exited cleanly, a session id arrived, and some
/// agent-visible text arrived.
pub open spec fn verdict_success(s: AggView, exit_ok: bool) -> bool {
    s.success && exit_ok && s.session_id.len() > 0 && s.agent_messages.len() > 0
}

/// The authoritative error message, by precedence: an in-stream error
/// message first; then the exit-status message; then the missing-session
/// message (which never overwrites an earlier one); and for an otherwise
/// successful run without agent text, the missing-output message.
pub open spec fn verdict_error(
    s: AggView,
    exit_ok: bool,
    code: Option<i32>,
    stderr: Seq<char>,
) -> Option<Seq<char>> {
    let e1 = if !exit_ok && s.error is None {
        Some(exit_error_text(code, stderr))
    } else {
        s.error
    };
    let e2 = if s.session_id.len() == 0 && e1 is None {
        Some(no_session_error_text())
    } else {
        e1
    };
    if s.success && exit_ok && s.session_id.len() > 0 && s.agent_messages.len() == 0 {
        Some(no_messages_error_text())
    } else {
        e2
    }
}

/// Resolve the final verdict once the subprocess has exited.
pub fn finalize(
    state: AggregationState,
    exit_ok: bool,
    exit_code: Option<i32>,
    stderr_output: &String,
    warnings: Option<String>,
    model_info: Option<String>,
) -> (r: DroidResult)
    ensures
        r@.success == verdict_success(state@, exit_ok),
        r@.error == verdict_error(state@, exit_ok, exit_code, stderr_output@),
        r@.session_id == state@.session_id,
        r@.agent_messages == state@.agent_messages,
        r@.agent_messages_truncated == state@.agent_messages_truncated,
        r@.all_messages == state@.all_messages,
        r@.all_messages_truncated == state@.all_messages_truncated,
        r@.warnings == warnings.deep_view(),
        r@.model_info == model_info.deep_view(),
{
    let mut result = DroidResult {
        success: state.success,
        session_id: state.session_id,
        agent_messages: state.agent_messages,
        agent_messages_truncated: state.agent_messages_truncated,
        all_messages: state.all_messages,
        all_messages_truncated: state.all_messages_truncated,
        error: state.error,
        warnings: warnings,
        model_info: model_info,
    };
    if !exit_ok {
        result.success = false;
        if result.error.is_none() {
            let mut msg = String::from_str("droid exited with code ");
            match exit_code {
                Some(c) => {
                    msg.append("Some(");
                    let digits = i32_to_string(c);
                    msg.append(digits.as_str());
                    msg.append(")");
                },
                None => {
                    msg.append("None");
                },
            }
            proof {
                assert(msg@ =~= "droid exited with code "@ + opt_code_text(exit_code));
            }
            if !stderr_output.as_str().is_empty() {
                msg.append(". stderr: ");
                msg.append(stderr_output.as_str());
            }
            proof {
                assert(msg@ =~= exit_error_text(exit_code, stderr_output@));
            }
            result.error = Some(msg);
        }
    }
    if result.session_id.as_str().is_empty() {
        result.success = false;
        if result.error.is_none() {
            result.error = Some(String::from_str("No session_id received from droid"));
        }
    }
    if result.agent_messages.as_str().is_empty() && result.success {
        result.success = false;
        result.error = Some(String::from_str("No agent messages received from droid"));
    }
    result
}

/// The error message a timed-out execution reports.
pub open spec fn timeout_error_text(secs: u64) -> Seq<char> {
    "Timeout after "@ + dec_str(secs as nat) + " seconds"@
}

/// The warning line appended when the deadline fires.
pub open spec fn timeout_warning_text(secs: u64) -> Seq<char> {
    "Droid execution timed out after "@ + dec_str(secs as nat) + " seconds"@
}

/// Warnings gathered before the deadline fired, concatenated ahead of
/// the timeout notice.
pub open spec fn timeout_warnings_text(
    dw: Option<Seq<char>>,
    mw: Option<Seq<char>>,
    secs: u64,
) -> Seq<char> {
    let tail = timeout_warning_text(secs);
    match (dw, mw) {
        (Some(d), Some(m)) => d + seq!['\n'] + m + seq!['\n'] + tail,
        (Some(d), None) => d + seq!['\n'] + tail,
        (None, Some(m)) => m + seq!['\n'] + tail,
        (None, None) => tail,
    }
}

/// The result a lost race against the deadline yields: a failure with
/// empty buffers, the timeout stated in seconds, and the warnings
/// gathered so far preserved.
pub fn timeout_result(
    timeout_secs: u64,
    droid_warning: Option<String>,
    model_warning: Option<String>,
    model_display: Option<String>,
) -> (r: DroidResult)
    ensures
        !r@.success,
        r@.session_id == Seq::<char>::empty(),
        r@.agent_messages == Seq::<char>::empty(),
        !r@.agent_messages_truncated,
        r@.all_messages == Seq::<Seq<char>>::empty(),
        !r@.all_messages_truncated,
        r@.error == Some(timeout_error_text(timeout_secs)),
        r@.warnings == Some(
            timeout_warnings_text(droid_warning.deep_view(), model_warning.deep_view(), timeout_secs),
        ),
        r@.model_info == model_display.deep_view(),
{
    let digits = u64_to_string(timeout_secs);
    let mut err = String::from_str("Timeout after ");
    err.append(digits.as_str());
    err.append(" seconds");
    proof {
        assert(err@ =~= timeout_error_text(timeout_secs));
    }
    let mut tail = String::from_str("Droid execution timed out after ");
    tail.append(digits.as_str());
    tail.append(" seconds");
    proof {
        assert(tail@ =~= timeout_warning_text(timeout_secs));
    }
    let mut combined = String::new();
    if let Some(d) = &droid_warning {
        combined.append(d.as_str());
        combined.append("\n");
    }
    if let Some(m) = &model_warning {
        combined.append(m.as_str());
        combined.append("\n");
    }
    combined.append(tail.as_str());
    proof {
        reveal_strlit("\n");
        assert("\n"@ =~= seq!['\n']);
        assert(combined@ =~= timeout_warnings_text(
            droid_warning.deep_view(),
            model_warning.deep_view(),
            timeout_secs,
        ));
    }
    let result = DroidResult {
        success: false,
        session_id: String::new(),
        agent_messages: String::new(),
        agent_messages_truncated: false,
        all_messages: Vec::new(),
        all_messages_truncated: false,
        error: Some(err),
        warnings: Some(combined),
        model_info: model_display,
    };
    proof {
        assert(result@.all_messages =~= Seq::<Seq<char>>::empty());
    }
    result
}

} // verus!
