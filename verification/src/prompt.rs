//! Prompt composition: an optional project-context file, capped in
//! size and clipped at a valid encoding boundary, prepended to the
//! caller's instruction.

use vstd::prelude::*;
use vstd::string::StringExecFns;
use vstd::utf8::{decode_utf8, valid_utf8};
use crate::text::{bytes_to_string, dec_str, trim_str, trimmed_of, u64_to_string};

verus! {

/// Byte cap for the project-context file; larger content is clipped to
/// the largest valid-encoding prefix within this cap.
pub const MAX_DROID_MD_SIZE: usize = 1024 * 1024;

/// Files larger than this are skipped entirely.
pub const ABSOLUTE_MAX_SIZE: u64 = 10 * 1024 * 1024;

/// The final prompt: the context file wrapped in a system-prompt frame,
/// then the caller's instruction.
pub open spec fn composed_prompt(content: Option<Seq<char>>, prompt: Option<Seq<char>>) -> Seq<
    char,
> {
    let head = match content {
        Some(c) => "<system_prompt>\n"@ + c + "\n</system_prompt>\n\n"@,
        None => Seq::empty(),
    };
    let tail = match prompt {
        Some(p) => p,
        None => Seq::empty(),
    };
    head + tail
}

/// Assemble the final prompt text.
pub fn compose_prompt(content: &Option<String>, prompt: &Option<String>) -> (r: String)
    ensures
        r@ == composed_prompt(content.deep_view(), prompt.deep_view()),
{
    let mut out = String::new();
    if let Some(c) = content {
        out.append("<system_prompt>\n");
        out.append(c.as_str());
        out.append("\n</system_prompt>\n\n");
    }
    if let Some(p) = prompt {
        out.append(p.as_str());
    }
    proof {
        assert(out@ =~= composed_prompt(content.deep_view(), prompt.deep_view()));
    }
    out
}

/// How many bytes of the context file are worth reading: none at all
/// past the absolute ceiling, otherwise the whole file up to slightly
/// past the clip cap.
pub fn context_read_limit(file_size: u64) -> (r: Option<u64>)
    ensures
        file_size > ABSOLUTE_MAX_SIZE ==> r is None,
        file_size <= ABSOLUTE_MAX_SIZE ==> r == Some(
            if file_size <= (MAX_DROID_MD_SIZE + 4) as u64 {
                file_size
            } else {
                (MAX_DROID_MD_SIZE + 4) as u64
            },
        ),
{
    if file_size > ABSOLUTE_MAX_SIZE {
        None
    } else if file_size <= (MAX_DROID_MD_SIZE + 4) as u64 {
        Some(file_size)
    } else {
        Some((MAX_DROID_MD_SIZE + 4) as u64)
    }
}

/// The warning for a context file past the absolute ceiling.
pub open spec fn oversize_warning_text(file_size: u64) -> Seq<char> {
    "DROID.md is "@ + dec_str(file_size as nat)
        + " bytes, exceeding the absolute maximum of "@ + dec_str(ABSOLUTE_MAX_SIZE as nat)
        + " bytes and will be skipped."@
}

pub fn oversize_context_warning(file_size: u64) -> (r: String)
    ensures
        r@ == oversize_warning_text(file_size),
{
    let mut s = String::from_str("DROID.md is ");
    let digits = u64_to_string(file_size);
    s.append(digits.as_str());
    s.append(" bytes, exceeding the absolute maximum of ");
    let cap = u64_to_string(ABSOLUTE_MAX_SIZE);
    s.append(cap.as_str());
    s.append(" bytes and will be skipped.");
    proof {
        assert(s@ =~= oversize_warning_text(file_size));
    }
    s
}

/// The warning for a context file clipped to `end` bytes.
pub open spec fn truncated_warning_text(file_size: u64, end: nat) -> Seq<char> {
    "DROID.md is "@ + dec_str(file_size as nat) + " bytes, exceeding the "@ + dec_str(
        MAX_DROID_MD_SIZE as nat,
    ) + " byte limit and was truncated to "@ + dec_str(end) + " bytes."@
}

pub open spec fn invalid_utf8_warning_text() -> Seq<char> {
    "DROID.md contains invalid UTF-8 and was skipped."@
}

/// A whole context file whose text is blank counts as absent.
pub open spec fn blank_whole_file(file_size: u64, c: Seq<u8>) -> bool {
    file_size <= c.len() && valid_utf8(c) && trimmed_of(decode_utf8(c)).len() == 0
}

/// The largest prefix length within `[1, end]` at which the bytes
/// decode as valid UTF-8.
pub open spec fn clip_end_from(c: Seq<u8>, end: int) -> Option<int>
    decreases end,
{
    if end <= 0 {
        None
    } else if valid_utf8(c.take(end)) {
        Some(end)
    } else {
        clip_end_from(c, end - 1)
    }
}

fn truncated_warning_string(file_size: u64, end: usize) -> (r: String)
    ensures
        r@ == truncated_warning_text(file_size, end as nat),
{
    let mut s = String::from_str("DROID.md is ");
    let digits = u64_to_string(file_size);
    s.append(digits.as_str());
    s.append(" bytes, exceeding the ");
    let cap = u64_to_string(MAX_DROID_MD_SIZE as u64);
    s.append(cap.as_str());
    s.append(" byte limit and was truncated to ");
    let e = u64_to_string(end as u64);
    s.append(e.as_str());
    s.append(" bytes.");
    proof {
        assert(s@ =~= truncated_warning_text(file_size, end as nat));
    }
    s
}

/// What processing the read bytes of the context file yields, as
/// content and warning. Empty content counts as absent; a whole file
/// that decodes to blank text counts as absent; content over the cap
/// is clipped to the largest valid-encoding prefix with a warning; and
/// content that cannot be decoded at all is skipped with a warning.
pub fn process_context(file_size: u64, content: &Vec<u8>) -> (r: (Option<String>, Option<String>))
    ensures
        content@.len() == 0 ==> r.0 is None && r.1 is None,
        ({
            let c = content@;
            let whole = blank_whole_file(file_size, c);
            &&& (c.len() > 0 && whole) ==> (r.0 is None && r.1 is None)
            &&& (c.len() > MAX_DROID_MD_SIZE && !whole) ==> (match clip_end_from(
                c,
                MAX_DROID_MD_SIZE as int,
            ) {
                Some(end) => r.0.deep_view() == Some(decode_utf8(c.take(end)))
                    && r.1.deep_view() == Some(truncated_warning_text(file_size, end as nat)),
                None => r.0 is None && r.1.deep_view() == Some(invalid_utf8_warning_text()),
            })
            &&& (0 < c.len() <= MAX_DROID_MD_SIZE && !whole) ==> (if valid_utf8(c) {
                r.0.deep_view() == Some(decode_utf8(c)) && r.1 is None
            } else {
                r.0 is None && r.1.deep_view() == Some(invalid_utf8_warning_text())
            })
        }),
{
    broadcast use vstd::slice::group_slice_axioms;

    if content.len() == 0 {
        return (None, None);
    }
    if file_size <= content.len() as u64 {
        if let Some(s) = bytes_to_string(content.as_slice()) {
            let t = trim_str(s.as_str());
            if t.is_empty() {
                return (None, None);
            }
        }
    }
    if content.len() > MAX_DROID_MD_SIZE {
        let mut end: usize = MAX_DROID_MD_SIZE;
        while end > 0
            invariant
                end <= MAX_DROID_MD_SIZE,
                content@.len() > MAX_DROID_MD_SIZE,
                !blank_whole_file(file_size, content@),
                clip_end_from(content@, MAX_DROID_MD_SIZE as int) == clip_end_from(
                    content@,
                    end as int,
                ),
            decreases end,
        {
            let prefix = vstd::slice::slice_subrange(content.as_slice(), 0, end);
            proof {
                assert(prefix@ =~= content@.take(end as int));
            }
            if let Some(s) = bytes_to_string(prefix) {
                return (Some(s), Some(truncated_warning_string(file_size, end)));
            }
            end = end - 1;
        }
        return (None, Some(String::from_str("DROID.md contains invalid UTF-8 and was skipped.")));
    }
    proof {
        assert(content@.take(content@.len() as int) =~= content@);
    }
    match bytes_to_string(content.as_slice()) {
        Some(s) => (Some(s), None),
        None => (None, Some(String::from_str("DROID.md contains invalid UTF-8 and was skipped."))),
    }
}

} // verus!
