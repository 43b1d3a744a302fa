//! The laws the aggregation and the verdict obey, stated over the
//! mathematical transition functions and proved for every stream.

use vstd::prelude::*;
use crate::aggregate::{
    AggView, MAX_AGENT_MESSAGES_SIZE, MAX_ALL_MESSAGES_SIZE, archive_bytes, event_fragment,
    init_view, is_error_event, run_events, run_lines, text_append, truncation_marker,
};
use crate::text::{byte_len, lemma_byte_len_concat};
use crate::event::EventView;
use crate::options::{exclusive_prompt_msg, validate_request_result};
use crate::verdict::{
    exit_error_text, no_messages_error_text, verdict_error, verdict_success,
};

verus! {

/// The first non-empty session id a stream announces, or the empty
/// string when it never announces one.
pub open spec fn first_session_id(es: Seq<EventView>) -> Seq<char>
    decreases es.len(),
{
    if es.len() == 0 {
        Seq::empty()
    } else {
        let pre = first_session_id(es.drop_last());
        if pre.len() > 0 {
            pre
        } else {
            let e = es.last();
            if e.session_id is Some && e.session_id->0.len() > 0 {
                e.session_id->0
            } else {
                Seq::empty()
            }
        }
    }
}

/// A run fails exactly when it started failed or some event reported
/// an error; no later signal can clear it.
pub proof fn lemma_run_success(s: AggView, es: Seq<EventView>)
    ensures
        run_events(s, es).success == (s.success && (forall|i: int|
            0 <= i < es.len() ==> !is_error_event(#[trigger] es[i]))),
    decreases es.len(),
{
    if es.len() > 0 {
        lemma_run_success(s, es.drop_last());
        assert(forall|i: int| 0 <= i < es.len() - 1 ==> es.drop_last()[i] == es[i]);
        if run_events(s, es).success {
            assert forall|i: int| 0 <= i < es.len() implies !is_error_event(#[trigger] es[i]) by {
                if i < es.len() - 1 {
                    assert(es.drop_last()[i] == es[i]);
                }
            }
        }
    }
}

/// The session id a run ends with: what it started with when that was
/// non-empty, else the first non-empty session id of the stream.
pub proof fn lemma_run_session(s: AggView, es: Seq<EventView>)
    ensures
        run_events(s, es).session_id == if s.session_id.len() > 0 {
            s.session_id
        } else {
            first_session_id(es)
        },
    decreases es.len(),
{
    if es.len() > 0 {
        lemma_run_session(s, es.drop_last());
    }
}

/// Idempotence of the first-wins session id: two distinct non-empty
/// session ids in sequence yield the first one.
pub proof fn lemma_first_session_wins(e1: EventView, e2: EventView)
    requires
        e1.session_id is Some && e1.session_id->0.len() > 0,
        e2.session_id is Some && e2.session_id->0.len() > 0,
    ensures
        run_events(init_view(), seq![e1, e2]).session_id == e1.session_id->0,
{
    reveal_with_fuel(first_session_id, 4);
    let es = seq![e1, e2];
    assert(es.drop_last() =~= seq![e1]);
    assert(seq![e1].drop_last() =~= Seq::<EventView>::empty());
    assert(first_session_id(seq![e1]) == e1.session_id->0);
    assert(first_session_id(es) == e1.session_id->0);
    lemma_run_session(init_view(), es);
}

/// Error messages, once set, stay; they are always non-empty; and any
/// error event guarantees one is set, with or without a message field.
pub proof fn lemma_run_error(s: AggView, es: Seq<EventView>)
    requires
        s.error is Some ==> s.error->0.len() > 0,
    ensures
        run_events(s, es).error is Some ==> run_events(s, es).error->0.len() > 0,
        s.error is Some ==> run_events(s, es).error is Some,
        (exists|i: int| 0 <= i < es.len() && is_error_event(#[trigger] es[i])) ==> run_events(
            s,
            es,
        ).error is Some,
    decreases es.len(),
{
    reveal_strlit("droid error: ");
    reveal_strlit("droid error: (no message)");
    if es.len() > 0 {
        lemma_run_error(s, es.drop_last());
        if exists|i: int| 0 <= i < es.len() && is_error_event(#[trigger] es[i]) {
            let i = choose|i: int| 0 <= i < es.len() && is_error_event(#[trigger] es[i]);
            if i < es.len() - 1 {
                assert(es.drop_last()[i] == es[i]);
            }
        }
    }
}

/// Any error event in the stream forces a failed verdict with a
/// non-empty error message, whatever the exit status says.
pub proof fn lemma_error_event_fails(
    es: Seq<EventView>,
    exit_ok: bool,
    code: Option<i32>,
    stderr: Seq<char>,
)
    requires
        exists|i: int| 0 <= i < es.len() && is_error_event(#[trigger] es[i]),
    ensures
        ({
            let s = run_events(init_view(), es);
            &&& !s.success
            &&& !verdict_success(s, exit_ok)
            &&& verdict_error(s, exit_ok, code, stderr) is Some
            &&& verdict_error(s, exit_ok, code, stderr)->0.len() > 0
        }),
{
    let s = run_events(init_view(), es);
    lemma_run_success(init_view(), es);
    lemma_run_error(init_view(), es);
    let i = choose|i: int| 0 <= i < es.len() && is_error_event(#[trigger] es[i]);
    assert(is_error_event(es[i]));
    assert(!s.success);
}

/// Appending text never shortens the buffer, and an event whose
/// fragment is non-empty leaves it non-empty.
proof fn lemma_run_text_nonempty(s: AggView, es: Seq<EventView>)
    requires
        s.agent_messages_truncated ==> s.agent_messages.len() > 0,
    ensures
        run_events(s, es).agent_messages_truncated ==> run_events(
            s,
            es,
        ).agent_messages.len() > 0,
        run_events(s, es).agent_messages.len() >= s.agent_messages.len(),
        (exists|i: int|
            0 <= i < es.len() && event_fragment(#[trigger] es[i]) is Some && event_fragment(
                es[i],
            )->0.len() > 0) ==> run_events(s, es).agent_messages.len() > 0,
    decreases es.len(),
{
    reveal_strlit("\n[... Agent messages truncated due to size limit ...]");
    if es.len() > 0 {
        lemma_run_text_nonempty(s, es.drop_last());
        let mid = run_events(s, es.drop_last());
        let e = es.last();
        if exists|i: int|
            0 <= i < es.len() && event_fragment(#[trigger] es[i]) is Some && event_fragment(
                es[i],
            )->0.len() > 0 {
            let i = choose|i: int|
                0 <= i < es.len() && event_fragment(#[trigger] es[i]) is Some && event_fragment(
                    es[i],
                )->0.len() > 0;
            if i < es.len() - 1 {
                assert(es.drop_last()[i] == es[i]);
            } else {
                assert(es[i] == e);
            }
        }
    }
}

/// A well-formed stream — no error events, a completion with non-empty
/// final text, a non-empty session id — together with a clean exit
/// yields a successful verdict carrying that stream's first session id
/// and a non-empty transcript, with no error message.
pub proof fn lemma_clean_stream_succeeds(
    es: Seq<EventView>,
    code: Option<i32>,
    stderr: Seq<char>,
)
    requires
        forall|i: int| 0 <= i < es.len() ==> !is_error_event(#[trigger] es[i]),
        exists|i: int|
            0 <= i < es.len() && (#[trigger] es[i]).event_type == Some("completion"@)
                && es[i].final_text is Some && es[i].final_text->0.len() > 0,
        exists|i: int|
            0 <= i < es.len() && (#[trigger] es[i]).session_id is Some
                && es[i].session_id->0.len() > 0,
    ensures
        ({
            let s = run_events(init_view(), es);
            &&& s.success
            &&& s.session_id == first_session_id(es)
            &&& s.session_id.len() > 0
            &&& s.agent_messages.len() > 0
            &&& verdict_success(s, true)
            &&& verdict_error(s, true, code, stderr) is None
        }),
{
    let s = run_events(init_view(), es);
    lemma_run_success(init_view(), es);
    lemma_run_session(init_view(), es);
    lemma_run_error(init_view(), es);
    lemma_run_text_nonempty(init_view(), es);
    let i = choose|i: int|
        0 <= i < es.len() && (#[trigger] es[i]).event_type == Some("completion"@)
            && es[i].final_text is Some && es[i].final_text->0.len() > 0;
    assert(event_fragment(es[i]) is Some && event_fragment(es[i])->0.len() > 0);
    lemma_first_session_nonempty(es);
    assert(s.error is None) by {
        if s.error is Some {
            lemma_run_error_only_from_events(init_view(), es);
        }
    }
}

/// A session id can only come from an event that announced it.
proof fn lemma_first_session_nonempty(es: Seq<EventView>)
    requires
        exists|i: int|
            0 <= i < es.len() && (#[trigger] es[i]).session_id is Some
                && es[i].session_id->0.len() > 0,
    ensures
        first_session_id(es).len() > 0,
    decreases es.len(),
{
    if es.len() > 0 {
        let i = choose|i: int|
            0 <= i < es.len() && (#[trigger] es[i]).session_id is Some
                && es[i].session_id->0.len() > 0;
        if i < es.len() - 1 {
            assert(es.drop_last()[i] == es[i]);
            lemma_first_session_nonempty(es.drop_last());
        }
    }
}

/// Without error events, no error message is ever recorded.
proof fn lemma_run_error_only_from_events(s: AggView, es: Seq<EventView>)
    requires
        s.error is None,
        forall|i: int| 0 <= i < es.len() ==> !is_error_event(#[trigger] es[i]),
    ensures
        run_events(s, es).error is None,
    decreases es.len(),
{
    if es.len() > 0 {
        assert(forall|i: int|
            0 <= i < es.len() - 1 ==> !is_error_event(#[trigger] es.drop_last()[i]));
        lemma_run_error_only_from_events(s, es.drop_last());
        assert(!is_error_event(es.last()));
    }
}

/// Exit-code-versus-signal precedence, first half: a clean exit without
/// agent output still fails, with the missing-output reason.
pub proof fn lemma_silent_clean_exit_fails(
    s: AggView,
    code: Option<i32>,
    stderr: Seq<char>,
)
    requires
        s.success,
        s.session_id.len() > 0,
        s.agent_messages.len() == 0,
    ensures
        !verdict_success(s, true),
        verdict_error(s, true, code, stderr) == Some(no_messages_error_text()),
{
}

/// Exit-code-versus-signal precedence, second half: a failing exit
/// status forces a failed verdict even when a valid completion arrived,
/// and when no earlier error message exists the exit-status message is
/// recorded. That the transcript itself is kept alongside is part of
/// the resolver's own contract.
pub proof fn lemma_bad_exit_overrides(
    s: AggView,
    code: Option<i32>,
    stderr: Seq<char>,
)
    requires
        s.error is None,
    ensures
        !verdict_success(s, false),
        verdict_error(s, false, code, stderr) == Some(exit_error_text(code, stderr)),
{
}

/// Mutual exclusivity: a request with both an instruction and a file
/// reference is rejected, whatever else it carries.
pub proof fn lemma_prompt_file_exclusive(
    prompt: Option<Seq<char>>,
    skip_permissions_unsafe: bool,
    auto_given: bool,
)
    requires
        prompt is Some,
    ensures
        validate_request_result(prompt, true, skip_permissions_unsafe, auto_given) == Err::<
            (),
            Seq<char>,
        >(exclusive_prompt_msg()),
{
}

/// A malformed line changes nothing: the run over a stream with such a
/// line equals the run over the stream without it.
pub proof fn lemma_malformed_line_skipped(s: AggView, lines: Seq<Seq<char>>, i: int)
    requires
        0 <= i < lines.len(),
        crate::event::parsed_event_of(lines[i]) is None,
    ensures
        run_lines(s, lines) == run_lines(s, lines.remove(i)),
    decreases lines.len(),
{
    if i == lines.len() - 1 {
        assert(lines.remove(i) =~= lines.drop_last());
    } else {
        assert(lines.remove(i).drop_last() =~= lines.drop_last().remove(i));
        assert(lines.remove(i).last() == lines.last());
        assert(lines.drop_last()[i] == lines[i]);
        lemma_malformed_line_skipped(s, lines.drop_last(), i);
    }
}

/// The agent-visible fragments a stream contributes, in order.
pub open spec fn fragments_of(es: Seq<EventView>) -> Seq<Seq<char>>
    decreases es.len(),
{
    if es.len() == 0 {
        Seq::empty()
    } else {
        let rest = fragments_of(es.drop_last());
        match event_fragment(es.last()) {
            Some(f) => rest.push(f),
            None => rest,
        }
    }
}

/// The serialized documents a stream offers the archive, in order.
pub open spec fn raws_of(es: Seq<EventView>) -> Seq<Seq<char>>
    decreases es.len(),
{
    if es.len() == 0 {
        Seq::empty()
    } else {
        raws_of(es.drop_last()).push(es.last().raw)
    }
}

/// The text policy folded over a fragment sequence.
pub open spec fn text_fold(t0: Seq<char>, tr0: bool, frags: Seq<Seq<char>>) -> (Seq<char>, bool)
    decreases frags.len(),
{
    if frags.len() == 0 {
        (t0, tr0)
    } else {
        let p = text_fold(t0, tr0, frags.drop_last());
        text_append(p.0, p.1, frags.last())
    }
}

/// The archive policy folded over a document sequence.
pub open spec fn arch_fold(a0: Seq<Seq<char>>, tr0: bool, raws: Seq<Seq<char>>) -> (
    Seq<Seq<char>>,
    bool,
)
    decreases raws.len(),
{
    if raws.len() == 0 {
        (a0, tr0)
    } else {
        let p = arch_fold(a0, tr0, raws.drop_last());
        if p.1 {
            p
        } else if archive_bytes(p.0) + byte_len(raws.last()) <= MAX_ALL_MESSAGES_SIZE {
            (p.0.push(raws.last()), false)
        } else {
            (p.0, true)
        }
    }
}

/// A run's two buffers are exactly the two policies folded over what
/// the stream contributes to each.
pub proof fn lemma_run_buffers(s: AggView, es: Seq<EventView>)
    ensures
        ({
            let r = run_events(s, es);
            let tp = text_fold(s.agent_messages, s.agent_messages_truncated, fragments_of(es));
            let ap = arch_fold(s.all_messages, s.all_messages_truncated, raws_of(es));
            &&& r.agent_messages == tp.0
            &&& r.agent_messages_truncated == tp.1
            &&& r.all_messages == ap.0
            &&& r.all_messages_truncated == ap.1
        }),
    decreases es.len(),
{
    if es.len() > 0 {
        lemma_run_buffers(s, es.drop_last());
        let fr = fragments_of(es.drop_last());
        match event_fragment(es.last()) {
            Some(f) => {
                assert(fr.push(f).drop_last() =~= fr);
                assert(fr.push(f).last() == f);
            },
            None => (),
        }
        let rw = raws_of(es.drop_last());
        assert(rw.push(es.last().raw).drop_last() =~= rw);
        assert(rw.push(es.last().raw).last() == es.last().raw);
    }
}

/// While the text buffer is untruncated it holds at least the bytes of
/// every fragment offered so far.
proof fn lemma_text_fold_lower(frags: Seq<Seq<char>>)
    ensures
        !text_fold(Seq::empty(), false, frags).1 ==> byte_len(
            text_fold(Seq::empty(), false, frags).0,
        ) >= archive_bytes(frags),
    decreases frags.len(),
{
    if frags.len() > 0 {
        lemma_text_fold_lower(frags.drop_last());
        let p = text_fold(Seq::empty(), false, frags.drop_last());
        let f = frags.last();
        if !text_fold(Seq::empty(), false, frags).1 {
            if p.0.len() > 0 && f.len() > 0 {
                lemma_byte_len_concat(p.0 + seq!['\n'], f);
                lemma_byte_len_concat(p.0, seq!['\n']);
                crate::text::lemma_byte_len_ascii_char('\n');
            } else {
                lemma_byte_len_concat(p.0, f);
            }
        }
    }
}

/// Fragments whose cumulative byte length exceeds the cap force the
/// truncation flag.
proof fn lemma_text_fold_over_cap(frags: Seq<Seq<char>>)
    requires
        archive_bytes(frags) > MAX_AGENT_MESSAGES_SIZE,
    ensures
        text_fold(Seq::empty(), false, frags).1,
    decreases frags.len(),
{
    if frags.len() > 0 {
        let p = text_fold(Seq::empty(), false, frags.drop_last());
        let f = frags.last();
        if !text_fold(Seq::empty(), false, frags).1 {
            assert(!p.1);
            lemma_text_fold_lower(frags.drop_last());
            assert(byte_len(p.0) + byte_len(f) <= MAX_AGENT_MESSAGES_SIZE);
            assert(archive_bytes(frags) == archive_bytes(frags.drop_last()) + byte_len(f));
            assert(false);
        }
    }
}

/// A truncated text buffer is an untruncated prefix fold plus the
/// marker, with nothing after it.
proof fn lemma_text_fold_shape(frags: Seq<Seq<char>>)
    requires
        text_fold(Seq::empty(), false, frags).1,
    ensures
        exists|k: int|
            0 <= k <= frags.len() && !text_fold(Seq::empty(), false, #[trigger] frags.take(k)).1
                && text_fold(Seq::empty(), false, frags).0 == text_fold(
                Seq::empty(),
                false,
                frags.take(k),
            ).0 + truncation_marker(),
    decreases frags.len(),
{
    if frags.len() > 0 {
        let p = text_fold(Seq::empty(), false, frags.drop_last());
        if p.1 {
            lemma_text_fold_shape(frags.drop_last());
            let k = choose|k: int|
                0 <= k <= frags.drop_last().len() && !text_fold(
                    Seq::empty(),
                    false,
                    #[trigger] frags.drop_last().take(k),
                ).1 && p.0 == text_fold(Seq::empty(), false, frags.drop_last().take(k)).0
                + truncation_marker();
            assert(frags.take(k) =~= frags.drop_last().take(k));
            assert(!text_fold(Seq::empty(), false, frags.take(k)).1 && text_fold(
                Seq::empty(),
                false,
                frags,
            ).0 == text_fold(Seq::empty(), false, frags.take(k)).0 + truncation_marker());
        } else {
            let k = frags.len() - 1;
            assert(frags.take(k) =~= frags.drop_last());
            assert(!text_fold(Seq::empty(), false, frags.take(k)).1 && text_fold(
                Seq::empty(),
                false,
                frags,
            ).0 == text_fold(Seq::empty(), false, frags.take(k)).0 + truncation_marker());
        }
    }
}

/// The visible-text cap law: when a stream's fragments exceed the cap
/// in cumulative bytes, the run ends truncated, and its buffer is
/// exactly the fold of an untruncated prefix of fragments followed by
/// the truncation marker.
pub proof fn lemma_text_cap(es: Seq<EventView>)
    requires
        archive_bytes(fragments_of(es)) > MAX_AGENT_MESSAGES_SIZE,
    ensures
        ({
            let r = run_events(init_view(), es);
            let frags = fragments_of(es);
            &&& r.agent_messages_truncated
            &&& exists|k: int|
                0 <= k <= frags.len() && !text_fold(
                    Seq::empty(),
                    false,
                    #[trigger] frags.take(k),
                ).1 && r.agent_messages == text_fold(Seq::empty(), false, frags.take(k)).0
                    + truncation_marker()
        }),
{
    lemma_run_buffers(init_view(), es);
    lemma_text_fold_over_cap(fragments_of(es));
    lemma_text_fold_shape(fragments_of(es));
}

/// An untruncated archive holds every document offered so far, within
/// budget.
proof fn lemma_arch_fold_untrunc(raws: Seq<Seq<char>>)
    ensures
        !arch_fold(Seq::empty(), false, raws).1 ==> arch_fold(Seq::empty(), false, raws).0
            =~= raws && archive_bytes(arch_fold(Seq::empty(), false, raws).0)
            <= MAX_ALL_MESSAGES_SIZE,
    decreases raws.len(),
{
    if raws.len() > 0 {
        lemma_arch_fold_untrunc(raws.drop_last());
        let p = arch_fold(Seq::empty(), false, raws.drop_last());
        if !arch_fold(Seq::empty(), false, raws).1 {
            assert(p.0.push(raws.last()) =~= raws);
            crate::aggregate::lemma_archive_bytes_push(p.0, raws.last());
        }
    }
}

/// Documents whose cumulative size exceeds the archive cap force the
/// archive truncation flag.
proof fn lemma_arch_fold_over_cap(raws: Seq<Seq<char>>)
    requires
        archive_bytes(raws) > MAX_ALL_MESSAGES_SIZE,
    ensures
        arch_fold(Seq::empty(), false, raws).1,
    decreases raws.len(),
{
    if raws.len() > 0 {
        let p = arch_fold(Seq::empty(), false, raws.drop_last());
        if !arch_fold(Seq::empty(), false, raws).1 {
            assert(!p.1);
            lemma_arch_fold_untrunc(raws.drop_last());
            assert(archive_bytes(p.0) == archive_bytes(raws.drop_last()));
            assert(archive_bytes(raws) == archive_bytes(raws.drop_last()) + byte_len(raws.last()));
            assert(false);
        }
    }
}

/// A truncated archive is exactly the prefix of documents that fit.
proof fn lemma_arch_fold_shape(raws: Seq<Seq<char>>)
    requires
        arch_fold(Seq::empty(), false, raws).1,
    ensures
        exists|k: int|
            0 <= k < raws.len() && arch_fold(Seq::empty(), false, raws).0 == #[trigger] raws.take(
                k,
            ) && archive_bytes(raws.take(k)) <= MAX_ALL_MESSAGES_SIZE && archive_bytes(
                raws.take(k + 1),
            ) > MAX_ALL_MESSAGES_SIZE,
    decreases raws.len(),
{
    if raws.len() > 0 {
        let p = arch_fold(Seq::empty(), false, raws.drop_last());
        if p.1 {
            lemma_arch_fold_shape(raws.drop_last());
            let k = choose|k: int|
                0 <= k < raws.drop_last().len() && p.0 == #[trigger] raws.drop_last().take(k)
                    && archive_bytes(raws.drop_last().take(k)) <= MAX_ALL_MESSAGES_SIZE
                    && archive_bytes(raws.drop_last().take(k + 1)) > MAX_ALL_MESSAGES_SIZE;
            assert(raws.take(k) =~= raws.drop_last().take(k));
            assert(raws.take(k + 1) =~= raws.drop_last().take(k + 1));
            assert(arch_fold(Seq::empty(), false, raws).0 == raws.take(k) && archive_bytes(
                raws.take(k),
            ) <= MAX_ALL_MESSAGES_SIZE && archive_bytes(raws.take(k + 1))
                > MAX_ALL_MESSAGES_SIZE);
        } else {
            let k = raws.len() - 1;
            lemma_arch_fold_untrunc(raws.drop_last());
            assert(raws.take(k) =~= raws.drop_last());
            assert(raws.take(k + 1) =~= raws);
            crate::aggregate::lemma_archive_bytes_push(raws.drop_last(), raws.last());
            assert(arch_fold(Seq::empty(), false, raws).0 == raws.take(k) && archive_bytes(
                raws.take(k),
            ) <= MAX_ALL_MESSAGES_SIZE && archive_bytes(raws.take(k + 1))
                > MAX_ALL_MESSAGES_SIZE);
        }
    }
}

/// The archive cap law: when a stream's documents exceed the archive
/// cap in cumulative serialized bytes, the run ends with the archive
/// truncation flag set and the archive holding exactly the prefix of
/// documents that fit.
pub proof fn lemma_archive_cap(es: Seq<EventView>)
    requires
        archive_bytes(raws_of(es)) > MAX_ALL_MESSAGES_SIZE,
    ensures
        ({
            let r = run_events(init_view(), es);
            let raws = raws_of(es);
            &&& r.all_messages_truncated
            &&& exists|k: int|
                0 <= k < raws.len() && r.all_messages == #[trigger] raws.take(k)
                    && archive_bytes(raws.take(k)) <= MAX_ALL_MESSAGES_SIZE && archive_bytes(
                    raws.take(k + 1),
                ) > MAX_ALL_MESSAGES_SIZE
        }),
{
    lemma_run_buffers(init_view(), es);
    lemma_arch_fold_over_cap(raws_of(es));
    lemma_arch_fold_shape(raws_of(es));
}

} // verus!
