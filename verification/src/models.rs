//! Resolution and display of model references: listing the registry,
//! picking a default model, and resolving a `custom:<slug>-<index>`
//! reference back to a registry entry. The reference is split on its
//! last hyphen to recover the index — a known ambiguity when a display
//! name itself ends in a numeric-looking hyphenated segment, kept here
//! as it stands.

use vstd::prelude::*;
use vstd::string::StrSliceExecFns;
use vstd::string::StringExecFns;
use crate::config::{CustomModel, CustomModelView, FactoryConfig, FactoryConfigView};
use crate::text::{
    dash_spaces, dashed_of, dec_str, eq_str, lower_of, lowercase, spec_contains, str_contains,
    u64_to_string,
};

verus! {

/// The reference text under which a registry entry can be requested.
pub open spec fn custom_ref_text(name: Seq<char>, idx: nat) -> Seq<char> {
    "custom:"@ + dashed_of(name) + "-"@ + dec_str(idx)
}

/// One line of the model listing.
pub open spec fn list_entry_text(m: CustomModelView, idx: nat) -> Seq<char> {
    m.model_display_name + " ("@ + custom_ref_text(m.model_display_name, idx) + ")"@
}

/// The whole model listing.
pub open spec fn model_list_of(ms: Seq<CustomModelView>) -> Seq<Seq<char>> {
    Seq::new(ms.len(), |i: int| list_entry_text(ms[i], i as nat))
}

/// Build the reference text for the entry at `idx`.
fn custom_ref_string(name: &str, idx: usize) -> (r: String)
    ensures
        r@ == custom_ref_text(name@, idx as nat),
{
    let mut s = String::from_str("custom:");
    let dashed = dash_spaces(name);
    s.append(dashed.as_str());
    s.append("-");
    let digits = u64_to_string(idx as u64);
    s.append(digits.as_str());
    proof {
        assert(s@ =~= custom_ref_text(name@, idx as nat));
    }
    s
}

/// List every registry entry under its display name and reference text.
pub fn list_custom_models(cfg: &FactoryConfig) -> (r: Vec<String>)
    ensures
        r.deep_view() == model_list_of(cfg@.custom_models),
{
    let ghost ms = cfg@.custom_models;
    let mut out: Vec<String> = Vec::new();
    let n = cfg.custom_models.len();
    let mut i: usize = 0;
    while i < n
        invariant
            i <= n,
            n == cfg.custom_models.len(),
            ms == cfg@.custom_models,
            out.deep_view() =~~= model_list_of(ms).take(i as int),
        decreases n - i,
    {
        let m = &cfg.custom_models[i];
        let mut line = m.model_display_name.clone();
        line.append(" (");
        let refs = custom_ref_string(m.model_display_name.as_str(), i);
        line.append(refs.as_str());
        line.append(")");
        proof {
            assert(line@ =~= list_entry_text(ms[i as int], i as nat));
        }
        let ghost prev = out.deep_view();
        out.push(line);
        proof {
            assert(out.deep_view().len() == prev.len() + 1);
            assert(out.deep_view()[i as int] == list_entry_text(ms[i as int], i as nat));
            assert(forall|j: int| 0 <= j < i ==> out.deep_view()[j] == prev[j]);
            assert(out.deep_view() =~~= model_list_of(ms).take(i + 1));
        }
        i += 1;
    }
    proof {
        assert(model_list_of(ms).take(n as int) =~= model_list_of(ms));
    }
    out
}

/// Whether an entry mentions the preferred model family, in either its
/// display name or its model identifier, case-insensitively.
pub open spec fn is_gpt_model(m: CustomModelView) -> bool {
    spec_contains(lower_of(m.model_display_name), "gpt"@) || spec_contains(
        lower_of(m.model),
        "gpt"@,
    )
}

/// The position of the first entry that mentions the preferred family.
pub open spec fn first_gpt_index(ms: Seq<CustomModelView>) -> Option<int>
    decreases ms.len(),
{
    if ms.len() == 0 {
        None
    } else if is_gpt_model(ms[0]) {
        Some(0)
    } else {
        match first_gpt_index(ms.drop_first()) {
            Some(j) => Some(j + 1),
            None => None,
        }
    }
}

proof fn lemma_first_gpt_some(ms: Seq<CustomModelView>, i: int)
    requires
        0 <= i < ms.len(),
        is_gpt_model(ms[i]),
        forall|j: int| 0 <= j < i ==> !is_gpt_model(#[trigger] ms[j]),
    ensures
        first_gpt_index(ms) == Some(i),
    decreases ms.len(),
{
    if i > 0 {
        lemma_first_gpt_some(ms.drop_first(), i - 1);
    }
}

proof fn lemma_first_gpt_none(ms: Seq<CustomModelView>)
    requires
        forall|j: int| 0 <= j < ms.len() ==> !is_gpt_model(#[trigger] ms[j]),
    ensures
        first_gpt_index(ms) is None,
    decreases ms.len(),
{
    if ms.len() > 0 {
        lemma_first_gpt_none(ms.drop_first());
    }
}

/// The default model reference: the first entry of the preferred family,
/// else the first entry, else none (the external tool's own default).
pub open spec fn default_model_of(cfg: FactoryConfigView) -> Option<Seq<char>> {
    let ms = cfg.custom_models;
    match first_gpt_index(ms) {
        Some(i) => Some(custom_ref_text(ms[i].model_display_name, i as nat)),
        None => if ms.len() > 0 {
            Some(custom_ref_text(ms[0].model_display_name, 0))
        } else {
            None
        },
    }
}

fn is_gpt_model_exec(m: &CustomModel) -> (r: bool)
    ensures
        r == is_gpt_model(m@),
{
    let ln = lowercase(m.model_display_name.as_str());
    if str_contains(ln.as_str(), "gpt") {
        return true;
    }
    let lm = lowercase(m.model.as_str());
    str_contains(lm.as_str(), "gpt")
}

/// Pick the default model reference from the registry.
pub fn get_default_model(cfg: &FactoryConfig) -> (r: Option<String>)
    ensures
        r.deep_view() == default_model_of(cfg@),
{
    let ghost ms = cfg@.custom_models;
    let n = cfg.custom_models.len();
    let mut i: usize = 0;
    while i < n
        invariant
            i <= n,
            n == cfg.custom_models.len(),
            ms == cfg@.custom_models,
            forall|j: int| 0 <= j < i ==> !is_gpt_model(#[trigger] ms[j]),
        decreases n - i,
    {
        let m = &cfg.custom_models[i];
        if is_gpt_model_exec(m) {
            proof {
                lemma_first_gpt_some(ms, i as int);
            }
            return Some(custom_ref_string(m.model_display_name.as_str(), i));
        }
        i += 1;
    }
    proof {
        lemma_first_gpt_none(ms);
    }
    if cfg.custom_models.len() > 0 {
        let first = &cfg.custom_models[0];
        Some(custom_ref_string(first.model_display_name.as_str(), 0))
    } else {
        None
    }
}

/// How a resolved entry is displayed: name, provider, identifier.
pub open spec fn display_of(m: CustomModelView) -> Seq<char> {
    m.model_display_name + " ["@ + m.provider + "] ("@ + m.model + ")"@
}

fn display_string(m: &CustomModel) -> (r: String)
    ensures
        r@ == display_of(m@),
{
    let mut s = m.model_display_name.clone();
    s.append(" [");
    s.append(m.provider.as_str());
    s.append("] (");
    s.append(m.model.as_str());
    s.append(")");
    proof {
        assert(s@ =~= display_of(m@));
    }
    s
}

/// Whether the reference carries the `custom:` scheme.
pub open spec fn has_custom_prefix(m: Seq<char>) -> bool {
    m.len() >= 7 && m.subrange(0, 7) == "custom:"@
}

fn has_custom_prefix_exec(s: &str) -> (r: bool)
    ensures
        r == has_custom_prefix(s@),
{
    proof {
        reveal_strlit("custom:");
    }
    let n = s.unicode_len();
    if n < 7 {
        return false;
    }
    let pre = s.substring_char(0, 7);
    eq_str(pre, "custom:")
}

/// The position of the last hyphen, if any.
pub open spec fn last_dash(s: Seq<char>) -> Option<int>
    decreases s.len(),
{
    if s.len() == 0 {
        None
    } else if s.last() == '-' {
        Some(s.len() - 1)
    } else {
        last_dash(s.drop_last())
    }
}

proof fn lemma_last_dash_some(s: Seq<char>, d: int)
    requires
        0 <= d < s.len(),
        s[d] == '-',
        forall|k: int| d < k < s.len() ==> s[k] != '-',
    ensures
        last_dash(s) == Some(d),
    decreases s.len(),
{
    if d < s.len() - 1 {
        lemma_last_dash_some(s.drop_last(), d);
    }
}

proof fn lemma_last_dash_none(s: Seq<char>)
    requires
        forall|k: int| 0 <= k < s.len() ==> s[k] != '-',
    ensures
        last_dash(s) is None,
    decreases s.len(),
{
    if s.len() > 0 {
        lemma_last_dash_none(s.drop_last());
    }
}

pub open spec fn is_dec_digit(c: char) -> bool {
    48 <= (c as u32) && (c as u32) <= 57
}

pub open spec fn digit_val(c: char) -> int {
    (c as u32) - 48
}

pub open spec fn all_digits(d: Seq<char>) -> bool {
    forall|i: int| 0 <= i < d.len() ==> is_dec_digit(#[trigger] d[i])
}

/// The value of a digit string, most significant digit first.
pub open spec fn digits_val(d: Seq<char>) -> int
    decreases d.len(),
{
    if d.len() == 0 {
        0
    } else {
        digits_val(d.drop_last()) * 10 + digit_val(d.last())
    }
}

proof fn lemma_digits_val_mono(d: Seq<char>, j: int)
    requires
        all_digits(d),
        0 <= j <= d.len(),
    ensures
        0 <= digits_val(d.take(j)) <= digits_val(d),
    decreases d.len(),
{
    if j == d.len() {
        assert(d.take(j) =~= d);
        if d.len() > 0 {
            assert(d.drop_last() =~= d.take(d.len() - 1));
            lemma_digits_val_mono(d.drop_last(), d.len() - 1);
        }
    } else {
        assert(d.drop_last() =~= d.take(d.len() - 1));
        assert(all_digits(d.drop_last()));
        assert(d.drop_last().take(j) =~= d.take(j));
        lemma_digits_val_mono(d.drop_last(), j);
        assert(is_dec_digit(d.last()));
    }
}

/// The digit part of an index string: one leading plus sign is allowed.
pub open spec fn strip_plus(t: Seq<char>) -> Seq<char> {
    if t.len() > 0 && t[0] == '+' {
        t.drop_first()
    } else {
        t
    }
}

/// What a decimal index string parses to: an optional leading plus sign,
/// then at least one digit, rejected on overflow of the machine's index
/// type.
pub open spec fn spec_parse_usize(t: Seq<char>) -> Option<int> {
    let d = strip_plus(t);
    if d.len() == 0 {
        None
    } else if !all_digits(d) {
        None
    } else if digits_val(d) > usize::MAX {
        None
    } else {
        Some(digits_val(d))
    }
}

/// Parse the decimal index in `s[start..end]` (character positions).
fn parse_usize_range(s: &str, start: usize, end: usize) -> (r: Option<usize>)
    requires
        start <= end <= s@.len(),
    ensures
        ({
            let t = s@.subrange(start as int, end as int);
            match r {
                Some(u) => spec_parse_usize(t) == Some(u as int),
                None => spec_parse_usize(t) is None,
            }
        }),
{
    let ghost t = s@.subrange(start as int, end as int);
    let mut k = start;
    if k < end && s.get_char(k) == '+' {
        k += 1;
    }
    let ghost d = strip_plus(t);
    proof {
        assert(d =~= s@.subrange(k as int, end as int));
    }
    if k == end {
        proof {
            assert(d.len() == 0);
            assert(spec_parse_usize(t) is None);
        }
        return None;
    }
    let mut acc: usize = 0;
    let mut i = k;
    while i < end
        invariant
            start <= k <= i <= end,
            end <= s@.len(),
            t == s@.subrange(start as int, end as int),
            d == strip_plus(t),
            d == s@.subrange(k as int, end as int),
            d.len() == end - k,
            all_digits(d.take(i - k)),
            acc == digits_val(d.take(i - k)),
        decreases end - i,
    {
        let c = s.get_char(i);
        let cv = c as u32;
        proof {
            assert(d[i - k] == c);
        }
        if cv < 48 || cv > 57 {
            proof {
                assert(!is_dec_digit(d[i - k]));
                assert(!all_digits(d));
            }
            return None;
        }
        let dv = (cv - 48) as usize;
        proof {
            assert(d.take(i - k + 1).drop_last() =~= d.take(i - k));
            assert(d.take(i - k + 1).last() == d[i - k]);
        }
        if acc > (usize::MAX - dv) / 10 {
            proof {
                assert(acc * 10 + dv > usize::MAX);
                assert(digits_val(d.take(i - k + 1)) == acc * 10 + dv);
                if all_digits(d) {
                    lemma_digits_val_mono(d, i - k + 1);
                    assert(digits_val(d) > usize::MAX);
                }
            }
            return None;
        }
        proof {
            assert(acc * 10 + dv <= usize::MAX);
        }
        acc = acc * 10 + dv;
        i += 1;
    }
    proof {
        assert(d.take(end - k) =~= d);
    }
    Some(acc)
}

/// The index a `custom:` reference resolves to: the text after the last
/// hyphen of the part after the scheme, read as a decimal number.
pub open spec fn custom_index_of(m: Seq<char>) -> Option<int> {
    if !has_custom_prefix(m) {
        None
    } else {
        let rest = m.skip(7);
        match last_dash(rest) {
            Some(dp) => spec_parse_usize(rest.subrange(dp + 1, rest.len() as int)),
            None => None,
        }
    }
}

/// Resolve the index of a `custom:` reference, if it has one.
pub fn parse_custom_index(s: &str) -> (r: Option<usize>)
    ensures
        match r {
            Some(u) => custom_index_of(s@) == Some(u as int),
            None => custom_index_of(s@) is None,
        },
{
    if !has_custom_prefix_exec(s) {
        return None;
    }
    let n = s.unicode_len();
    let ghost rest = s@.skip(7);
    let mut j = n;
    while j > 7
        invariant
            7 <= j <= n,
            n == s@.len(),
            n >= 7,
            has_custom_prefix(s@),
            rest == s@.skip(7),
            forall|kk: int| j <= kk < n ==> s@[kk] != '-',
        decreases j,
    {
        j -= 1;
        if s.get_char(j) == '-' {
            proof {
                assert(rest[j - 7] == s@[j as int]);
                assert(forall|kk: int| j - 7 < kk < rest.len() ==> rest[kk] == s@[kk + 7]
                    && rest[kk] != '-');
                lemma_last_dash_some(rest, j - 7);
            }
            let r = parse_usize_range(s, j + 1, n);
            proof {
                assert(rest.subrange(j - 7 + 1, rest.len() as int) =~= s@.subrange(
                    j + 1,
                    n as int,
                ));
            }
            return r;
        }
    }
    proof {
        assert(forall|kk: int| 0 <= kk < rest.len() ==> rest[kk] == s@[kk + 7] && rest[kk] != '-');
        lemma_last_dash_none(rest);
    }
    None
}

pub open spec fn no_models_warning_text() -> Seq<char> {
    "⚠️  No custom models configured. Using Factory default model (requires FACTORY_API_KEY)."@
}

pub open spec fn invalid_ref_warning_text(m: Seq<char>) -> Seq<char> {
    "⚠️  Invalid custom model reference: '"@ + m + "'. Using first available model."@
}

/// The display text and warning that a model parameter resolves to:
/// a resolvable `custom:` reference shows its registry entry; a broken
/// one falls back to the first entry with a warning; a plain model
/// string is shown as given; an absent parameter shows the first entry,
/// or the external tool's default with a warning when the registry is
/// empty.
pub open spec fn model_info_of(model: Option<Seq<char>>, cfg: FactoryConfigView) -> (Option<
    Seq<char>,
>, Option<Seq<char>>) {
    let ms = cfg.custom_models;
    match model {
        None => if ms.len() > 0 {
            (Some(display_of(ms[0])), None)
        } else {
            (Some("Factory default model"@), Some(no_models_warning_text()))
        },
        Some(m) => if has_custom_prefix(m) {
            let io = custom_index_of(m);
            if io is Some && io->0 < ms.len() {
                (Some(display_of(ms[io->0])), None)
            } else if ms.len() > 0 {
                (
                    Some(display_of(ms[0])),
                    Some(
                        invalid_ref_warning_text(m) + "\nℹ️  Fallback to: "@ + display_of(ms[0]),
                    ),
                )
            } else {
                (Some("Factory default model"@), Some(invalid_ref_warning_text(m)))
            }
        } else {
            (Some("Model: "@ + m), None)
        },
    }
}

/// Resolve the display text and warning for the given model parameter.
pub fn get_model_info(model_param: &Option<String>, cfg: &FactoryConfig) -> (r: (
    Option<String>,
    Option<String>,
))
    ensures
        ({
            let expected = model_info_of(model_param.deep_view(), cfg@);
            r.0.deep_view() == expected.0 && r.1.deep_view() == expected.1
        }),
{
    match model_param {
        None => {
            if cfg.custom_models.len() > 0 {
                (Some(display_string(&cfg.custom_models[0])), None)
            } else {
                (
                    Some(String::from_str("Factory default model")),
                    Some(
                        String::from_str(
                            "⚠️  No custom models configured. Using Factory default model (requires FACTORY_API_KEY).",
                        ),
                    ),
                )
            }
        },
        Some(model) => {
            if has_custom_prefix_exec(model.as_str()) {
                let parsed = parse_custom_index(model.as_str());
                let mut resolved: Option<usize> = None;
                if let Some(idx) = parsed {
                    if idx < cfg.custom_models.len() {
                        resolved = Some(idx);
                    }
                }
                match resolved {
                    Some(idx) => (Some(display_string(&cfg.custom_models[idx])), None),
                    None => {
                        let mut warning = String::from_str(
                            "⚠️  Invalid custom model reference: '",
                        );
                        warning.append(model.as_str());
                        warning.append("'. Using first available model.");
                        proof {
                            assert(warning@ =~= invalid_ref_warning_text(model@));
                        }
                        if cfg.custom_models.len() > 0 {
                            let display = display_string(&cfg.custom_models[0]);
                            let mut combined = warning;
                            combined.append("\nℹ️  Fallback to: ");
                            combined.append(display.as_str());
                            proof {
                                assert(combined@ =~= invalid_ref_warning_text(model@)
                                    + "\nℹ️  Fallback to: "@ + display_of(
                                    cfg@.custom_models[0],
                                ));
                            }
                            (Some(display), Some(combined))
                        } else {
                            (Some(String::from_str("Factory default model")), Some(warning))
                        }
                    },
                }
            } else {
                let mut d = String::from_str("Model: ");
                d.append(model.as_str());
                (Some(d), None)
            }
        },
    }
}

/// The listing lines as the server's instruction text shows them.
pub open spec fn model_lines_text(ls: Seq<Seq<char>>) -> Seq<char>
    decreases ls.len(),
{
    if ls.len() == 0 {
        Seq::empty()
    } else if ls.len() == 1 {
        "  - "@ + ls[0]
    } else {
        model_lines_text(ls.drop_last()) + seq!['\n'] + "  - "@ + ls.last()
    }
}

/// The instruction text the server announces: the fixed description,
/// followed by the model listing when the registry has entries.
pub open spec fn instructions_text_of(ls: Seq<Seq<char>>) -> Seq<char> {
    let base =
        "This server provides a droid tool for AI-assisted coding tasks. Use the droid tool to execute coding tasks via the Droid CLI with configurable autonomy levels. Set autonomy level via the 'auto' parameter (low, medium, high) to control operation permissions. Place a DROID.md file in the working directory for project-specific context."@;
    if ls.len() == 0 {
        base
    } else {
        base + "\n\nAvailable custom models from ~/.factory/config.json:\n"@
            + model_lines_text(ls)
    }
}

/// Build the instruction text from the model listing.
pub fn server_instructions(models: &Vec<String>) -> (r: String)
    ensures
        r@ == instructions_text_of(models.deep_view()),
{
    let ghost ls = models.deep_view();
    let mut out = String::from_str(
        "This server provides a droid tool for AI-assisted coding tasks. Use the droid tool to execute coding tasks via the Droid CLI with configurable autonomy levels. Set autonomy level via the 'auto' parameter (low, medium, high) to control operation permissions. Place a DROID.md file in the working directory for project-specific context.",
    );
    let n = models.len();
    if n == 0 {
        return out;
    }
    out.append("\n\nAvailable custom models from ~/.factory/config.json:\n");
    let mut lines = String::new();
    let mut i: usize = 0;
    while i < n
        invariant
            i <= n,
            n == models.len(),
            ls == models.deep_view(),
            lines@ =~= model_lines_text(ls.take(i as int)),
        decreases n - i,
    {
        proof {
            reveal_strlit("\n");
            assert("\n"@ =~= seq!['\n']);
            assert(ls.take(i + 1).drop_last() =~= ls.take(i as int));
            assert(ls.take(i + 1).last() == ls[i as int]);
        }
        if i > 0 {
            lines.append("\n");
        }
        lines.append("  - ");
        lines.append(models[i].as_str());
        i += 1;
    }
    proof {
        assert(ls.take(n as int) =~= ls);
    }
    out.append(lines.as_str());
    proof {
        assert(out@ =~= instructions_text_of(ls));
    }
    out
}

} // verus!
