//! The stream aggregator: the mutable state built up while the
//! subprocess's stdout is drained line by line, and the capped diagnostic
//! buffer its stderr drain fills. Every transition is stated as a spec
//! function over the state's mathematical view, and the executable
//! methods are proved to follow those transitions exactly.

use vstd::prelude::*;
use vstd::string::StringExecFns;
use crate::event::{EventView, ParsedEvent, parse_event_line, parsed_event_of};
use crate::text::{byte_len, lemma_byte_len_concat, str_byte_len};

verus! {

/// Byte cap for the agent-visible text buffer.
pub const MAX_AGENT_MESSAGES_SIZE: usize = 10 * 1024 * 1024;

/// Byte cap for the raw archive of parsed events.
pub const MAX_ALL_MESSAGES_SIZE: usize = 50 * 1024 * 1024;

/// Byte cap for the diagnostic stderr buffer.
pub const MAX_STDERR_SIZE: usize = 100000;

/// The marker appended once when the agent-visible text buffer overflows.
pub open spec fn truncation_marker() -> Seq<char> {
    "\n[... Agent messages truncated due to size limit ...]"@
}

/// The prefix that identifies an agent-reported error message.
pub open spec fn agent_error_prefix() -> Seq<char> {
    "droid error: "@
}

/// The fixed reason recorded for an error event that carries no
/// message field: the run still fails with a non-empty reason.
pub open spec fn unspecified_error_text() -> Seq<char> {
    "droid error: (no message)"@
}

/// The mathematical image of the aggregation state.
pub ghost struct AggView {
    pub session_id: Seq<char>,
    pub agent_messages: Seq<char>,
    pub agent_messages_truncated: bool,
    pub all_messages: Seq<Seq<char>>,
    pub all_messages_truncated: bool,
    pub success: bool,
    pub error: Option<Seq<char>>,
}

/// Total serialized byte size of the archived events.
pub open spec fn archive_bytes(msgs: Seq<Seq<char>>) -> nat
    decreases msgs.len(),
{
    if msgs.len() == 0 {
        0
    } else {
        archive_bytes(msgs.drop_last()) + byte_len(msgs.last())
    }
}

pub proof fn lemma_archive_bytes_push(msgs: Seq<Seq<char>>, m: Seq<char>)
    ensures
        archive_bytes(msgs.push(m)) == archive_bytes(msgs) + byte_len(m),
{
    assert(msgs.push(m).drop_last() =~= msgs);
    assert(msgs.push(m).last() == m);
}

/// The policy for the agent-visible text buffer: while untruncated and
/// within budget, append with a separating newline between two non-empty
/// pieces; on the first overflow append the marker once and stop; once
/// truncated, ignore everything.
pub open spec fn text_append(text: Seq<char>, truncated: bool, frag: Seq<char>) -> (Seq<
    char,
>, bool) {
    if truncated {
        (text, true)
    } else if byte_len(text) + byte_len(frag) > MAX_AGENT_MESSAGES_SIZE {
        (text + truncation_marker(), true)
    } else if text.len() > 0 && frag.len() > 0 {
        (text + seq!['\n'] + frag, false)
    } else {
        (text + frag, false)
    }
}

/// Whether the event is an agent-reported error.
pub open spec fn is_error_event(e: EventView) -> bool {
    e.event_type == Some("error"@)
}

/// The agent-visible fragment an event contributes, if any: the final
/// text of a completion, or the text of an assistant message.
pub open spec fn event_fragment(e: EventView) -> Option<Seq<char>> {
    if e.event_type == Some("completion"@) && e.final_text is Some {
        Some(e.final_text->0)
    } else if e.event_type == Some("message"@) && e.role == Some("assistant"@) && e.text is Some {
        Some(e.text->0)
    } else {
        None
    }
}

/// The first non-empty session id wins; later ones are ignored.
pub open spec fn sid_step(s: AggView, e: EventView) -> AggView {
    if e.session_id is Some && e.session_id->0.len() > 0 && s.session_id.len() == 0 {
        AggView { session_id: e.session_id->0, ..s }
    } else {
        s
    }
}

/// An error event marks failure at once; the first error wins, and an
/// event without a message field still records a non-empty reason.
pub open spec fn error_step(s: AggView, e: EventView) -> AggView {
    if is_error_event(e) {
        AggView {
            success: false,
            error: if s.error is None {
                Some(
                    match e.message {
                        Some(m) => agent_error_prefix() + m,
                        None => unspecified_error_text(),
                    },
                )
            } else {
                s.error
            },
            ..s
        }
    } else {
        s
    }
}

/// The event's agent-visible fragment, if any, feeds the text policy.
pub open spec fn text_step(s: AggView, e: EventView) -> AggView {
    match event_fragment(e) {
        Some(frag) => {
            let pair = text_append(s.agent_messages, s.agent_messages_truncated, frag);
            AggView { agent_messages: pair.0, agent_messages_truncated: pair.1, ..s }
        },
        None => s,
    }
}

/// Every parsed event is archived while the archive budget lasts; the
/// first overflow drops the event and all later ones.
pub open spec fn archive_step(s: AggView, e: EventView) -> AggView {
    if s.all_messages_truncated {
        s
    } else if archive_bytes(s.all_messages) + byte_len(e.raw) <= MAX_ALL_MESSAGES_SIZE {
        AggView { all_messages: s.all_messages.push(e.raw), ..s }
    } else {
        AggView { all_messages_truncated: true, ..s }
    }
}

/// The whole per-event transition, in the order the drain applies it.
pub open spec fn step_event(s: AggView, e: EventView) -> AggView {
    archive_step(text_step(error_step(sid_step(s, e), e), e), e)
}

/// The transition one raw stdout line causes: a blank or malformed line
/// changes nothing.
pub open spec fn line_step(s: AggView, line: Seq<char>) -> AggView {
    match parsed_event_of(line) {
        Some(e) => step_event(s, e),
        None => s,
    }
}

/// Folding a whole event sequence through the transition.
pub open spec fn run_events(s: AggView, es: Seq<EventView>) -> AggView
    decreases es.len(),
{
    if es.len() == 0 {
        s
    } else {
        step_event(run_events(s, es.drop_last()), es.last())
    }
}

/// Folding a whole sequence of raw lines through the transition.
pub open spec fn run_lines(s: AggView, lines: Seq<Seq<char>>) -> AggView
    decreases lines.len(),
{
    if lines.len() == 0 {
        s
    } else {
        line_step(run_lines(s, lines.drop_last()), lines.last())
    }
}

/// The state the drain starts from: provisionally successful, all
/// buffers empty.
pub open spec fn init_view() -> AggView {
    AggView {
        session_id: Seq::empty(),
        agent_messages: Seq::empty(),
        agent_messages_truncated: false,
        all_messages: Seq::empty(),
        all_messages_truncated: false,
        success: true,
        error: None,
    }
}

/// Aggregation state, owned by the stdout drain and consumed once into
/// the final result.
pub struct AggregationState {
    pub session_id: String,
    pub agent_messages: String,
    pub agent_messages_truncated: bool,
    pub all_messages: Vec<String>,
    pub all_messages_size: usize,
    pub all_messages_truncated: bool,
    pub success: bool,
    pub error: Option<String>,
}

impl View for AggregationState {
    type V = AggView;

    open spec fn view(&self) -> AggView {
        AggView {
            session_id: self.session_id@,
            agent_messages: self.agent_messages@,
            agent_messages_truncated: self.agent_messages_truncated,
            all_messages: self.all_messages.deep_view(),
            all_messages_truncated: self.all_messages_truncated,
            success: self.success,
            error: self.error.deep_view(),
        }
    }
}

impl AggregationState {
    /// The sizes the executable state tracks agree with the view: the
    /// text buffer never holds more than the cap plus one separating
    /// newline, and the archive total is the sum of its entries and
    /// within its cap.
    pub open spec fn wf(&self) -> bool {
        &&& (!self.agent_messages_truncated ==> byte_len(self.agent_messages@)
            <= MAX_AGENT_MESSAGES_SIZE + 1)
        &&& self.all_messages_size == archive_bytes(self@.all_messages)
        &&& archive_bytes(self@.all_messages) <= MAX_ALL_MESSAGES_SIZE
    }

    pub fn new() -> (r: AggregationState)
        ensures
            r@ == init_view(),
            r.wf(),
    {
        let r = AggregationState {
            session_id: String::new(),
            agent_messages: String::new(),
            agent_messages_truncated: false,
            all_messages: Vec::new(),
            all_messages_size: 0,
            all_messages_truncated: false,
            success: true,
            error: None,
        };
        proof {
            assert(r@.all_messages =~= init_view().all_messages);
            assert(r@ == init_view());
        }
        r
    }

    fn append_agent_text(&mut self, frag: &str)
        requires
            old(self).wf(),
        ensures
            final(self).wf(),
            ({
                let pair = text_append(
                    old(self)@.agent_messages,
                    old(self)@.agent_messages_truncated,
                    frag@,
                );
                final(self)@ == AggView {
                    agent_messages: pair.0,
                    agent_messages_truncated: pair.1,
                    ..old(self)@
                }
            }),
    {
        if self.agent_messages_truncated {
            return;
        }
        let cur = str_byte_len(self.agent_messages.as_str());
        let flen = str_byte_len(frag);
        if cur > MAX_AGENT_MESSAGES_SIZE || flen > MAX_AGENT_MESSAGES_SIZE - cur {
            self.agent_messages.append("\n[... Agent messages truncated due to size limit ...]");
            self.agent_messages_truncated = true;
        } else {
            if !self.agent_messages.as_str().is_empty() && !frag.is_empty() {
                self.agent_messages.append("\n");
                proof {
                    reveal_strlit("\n");
                    assert("\n"@ =~= seq!['\n']);
                }
            }
            self.agent_messages.append(frag);
            proof {
                lemma_byte_len_concat(old(self)@.agent_messages, frag@);
                if old(self)@.agent_messages.len() > 0 && frag@.len() > 0 {
                    lemma_byte_len_concat(old(self)@.agent_messages + seq!['\n'], frag@);
                    lemma_byte_len_concat(old(self)@.agent_messages, seq!['\n']);
                    assert(byte_len(seq!['\n']) == 1) by {
                        crate::text::lemma_byte_len_ascii_char('\n');
                    }
                    assert(self.agent_messages@ =~= old(self)@.agent_messages + seq!['\n']
                        + frag@);
                }
            }
        }
    }

    fn do_sid_step(&mut self, e: &ParsedEvent)
        requires
            old(self).wf(),
        ensures
            final(self).wf(),
            final(self)@ == sid_step(old(self)@, e@),
    {
        if let Some(sid) = &e.session_id {
            if !sid.as_str().is_empty() && self.session_id.as_str().is_empty() {
                self.session_id = sid.clone();
            }
        }
    }

    fn do_error_step(&mut self, e: &ParsedEvent)
        requires
            old(self).wf(),
        ensures
            final(self).wf(),
            final(self)@ == error_step(old(self)@, e@),
    {
        if let Some(t) = &e.event_type {
            if crate::text::eq_str(t.as_str(), "error") {
                self.success = false;
                if self.error.is_none() {
                    match &e.message {
                        Some(msg) => {
                            let mut err = String::from_str("droid error: ");
                            err.append(msg.as_str());
                            self.error = Some(err);
                        },
                        None => {
                            self.error = Some(String::from_str("droid error: (no message)"));
                        },
                    }
                }
            }
        }
    }

    #[verifier::rlimit(100)]
    fn do_text_step(&mut self, e: &ParsedEvent)
        requires
            old(self).wf(),
        ensures
            final(self).wf(),
            final(self)@ == text_step(old(self)@, e@),
    {
        proof {
            reveal_strlit("completion");
            reveal_strlit("message");
            assert("completion"@.len() == 10);
            assert("message"@.len() == 7);
            assert("completion"@ != "message"@);
        }
        let mut frag: Option<&String> = None;
        if let Some(t) = &e.event_type {
            if crate::text::eq_str(t.as_str(), "completion") {
                if let Some(ft) = &e.final_text {
                    frag = Some(ft);
                }
            } else if crate::text::eq_str(t.as_str(), "message") {
                if let Some(role) = &e.role {
                    if crate::text::eq_str(role.as_str(), "assistant") {
                        if let Some(tx) = &e.text {
                            frag = Some(tx);
                        }
                    }
                }
            }
        }
        proof {
            assert(frag is None ==> event_fragment(e@) is None);
            assert(frag matches Some(f) ==> event_fragment(e@) == Some(f@));
        }
        match frag {
            Some(f) => self.append_agent_text(f.as_str()),
            None => (),
        }
    }

    fn do_archive_step(&mut self, e: &ParsedEvent)
        requires
            old(self).wf(),
        ensures
            final(self).wf(),
            final(self)@ == archive_step(old(self)@, e@),
    {
        let rlen = str_byte_len(e.raw.as_str());
        if !self.all_messages_truncated {
            if rlen <= MAX_ALL_MESSAGES_SIZE - self.all_messages_size {
                let ghost before = self@.all_messages;
                self.all_messages.push(e.raw.clone());
                self.all_messages_size = self.all_messages_size + rlen;
                proof {
                    assert(self@.all_messages =~= before.push(e.raw@));
                    lemma_archive_bytes_push(before, e.raw@);
                }
            } else {
                self.all_messages_truncated = true;
            }
        }
    }

    /// Absorb one successfully parsed event, exactly as `step_event`
    /// describes.
    pub fn absorb_event(&mut self, e: &ParsedEvent)
        requires
            old(self).wf(),
        ensures
            final(self).wf(),
            final(self)@ == step_event(old(self)@, e@),
    {
        self.do_sid_step(e);
        self.do_error_step(e);
        self.do_text_step(e);
        self.do_archive_step(e);
    }

    /// Absorb one raw stdout line: parse it, feed the event through the
    /// transition, and skip it when blank or malformed.
    pub fn absorb_line(&mut self, line: &str)
        requires
            old(self).wf(),
        ensures
            final(self).wf(),
            final(self)@ == line_step(old(self)@, line@),
    {
        match parse_event_line(line) {
            Some(e) => self.absorb_event(&e),
            None => (),
        }
    }

    /// Absorb a whole stream of stdout lines in order.
    pub fn absorb_lines(&mut self, lines: &Vec<String>)
        requires
            old(self).wf(),
        ensures
            final(self).wf(),
            final(self)@ == run_lines(old(self)@, lines.deep_view()),
    {
        let ghost all = lines.deep_view();
        let n = lines.len();
        let mut i: usize = 0;
        while i < n
            invariant
                i <= n,
                n == lines.len(),
                all == lines.deep_view(),
                self.wf(),
                self@ == run_lines(old(self)@, all.take(i as int)),
            decreases n - i,
        {
            self.absorb_line(lines[i].as_str());
            proof {
                assert(all.take(i + 1).drop_last() =~= all.take(i as int));
                assert(all.take(i + 1).last() == lines.deep_view()[i as int]);
            }
            i += 1;
        }
        proof {
            assert(all.take(n as int) =~= all);
        }
    }
}

/// One step of the stderr drain: a line is kept while the diagnostic
/// budget lasts and silently dropped afterwards.
pub open spec fn stderr_step(buf: Seq<char>, line: Seq<char>) -> Seq<char> {
    if byte_len(buf) + byte_len(line) <= MAX_STDERR_SIZE {
        buf + line
    } else {
        buf
    }
}

/// Append one stderr line to the capped diagnostic buffer.
pub fn append_stderr_line(buf: &mut String, line: &str)
    ensures
        final(buf)@ == stderr_step(old(buf)@, line@),
{
    let blen = str_byte_len(buf.as_str());
    let llen = str_byte_len(line);
    if blen <= MAX_STDERR_SIZE && llen <= MAX_STDERR_SIZE - blen {
        buf.append(line);
    }
}

} // verus!
