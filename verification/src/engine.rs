//! Run-level decisions around one execution: filling in defaulted
//! options, refusing the highest autonomy level when configuration
//! forbids it, and merging warning texts.

use vstd::prelude::*;
use vstd::string::StringExecFns;
use crate::config::{
    FactoryConfig, ServerConfig, ServerConfigView, default_auto_of, default_timeout_of,
    default_timeout_secs, get_default_auto,
};
use crate::models::{default_model_of, get_default_model};
use crate::options::{Options, OptionsView};
use crate::text::{eq_str, trim_str, trimmed_of};

verus! {

/// Fill in the model, autonomy level and timeout where the caller left
/// them unset.
pub fn apply_defaults(opts: &mut Options, server_cfg: &ServerConfig, factory_cfg: &FactoryConfig)
    ensures
        final(opts)@ == (OptionsView {
            model: if old(opts)@.model is Some {
                old(opts)@.model
            } else {
                default_model_of(factory_cfg@)
            },
            auto: if old(opts)@.auto is Some {
                old(opts)@.auto
            } else {
                default_auto_of(server_cfg@)
            },
            timeout_secs: if old(opts)@.timeout_secs is Some {
                old(opts)@.timeout_secs
            } else {
                Some(default_timeout_of(server_cfg@))
            },
            ..old(opts)@
        }),
{
    if opts.model.is_none() {
        opts.model = get_default_model(factory_cfg);
    }
    if opts.auto.is_none() {
        opts.auto = get_default_auto(server_cfg);
    }
    if opts.timeout_secs.is_none() {
        opts.timeout_secs = Some(default_timeout_secs(server_cfg));
    }
}

/// Whether the request asks for the forbidden highest autonomy level.
pub open spec fn high_autonomy_refused(auto: Option<Seq<char>>, cfg: ServerConfigView) -> bool {
    auto == Some("high"@) && !cfg.allow_high_autonomy
}

pub open spec fn high_autonomy_msg() -> Seq<char> {
    "High autonomy level is disabled in configuration. Set allow_high_autonomy=true to enable."@
}

/// Refuse the highest autonomy level when configuration forbids it,
/// before the process is ever launched.
pub fn check_high_autonomy(auto: &Option<String>, cfg: &ServerConfig) -> (r: Result<(), String>)
    ensures
        r is Ok <==> !high_autonomy_refused(auto.deep_view(), cfg@),
        r matches Err(m) ==> m@ == high_autonomy_msg(),
{
    if let Some(a) = auto {
        if eq_str(a.as_str(), "high") && !cfg.allow_high_autonomy {
            return Err(
                String::from_str(
                    "High autonomy level is disabled in configuration. Set allow_high_autonomy=true to enable.",
                ),
            );
        }
    }
    Ok(())
}

/// The name the subprocess is launched under: a non-blank override
/// wins, trimmed; anything else falls back to the fixed name.
pub open spec fn binary_name_of(override_value: Option<Seq<char>>, fixed: Seq<char>) -> Seq<
    char,
> {
    match override_value {
        Some(v) => if trimmed_of(v).len() > 0 {
            trimmed_of(v)
        } else {
            fixed
        },
        None => fixed,
    }
}

/// Resolve the subprocess binary name from an optional override.
pub fn resolve_binary_name(override_value: &Option<String>, fixed: &str) -> (r: String)
    ensures
        r@ == binary_name_of(override_value.deep_view(), fixed@),
{
    if let Some(v) = override_value {
        let t = trim_str(v.as_str());
        if !t.is_empty() {
            return String::from_str(t);
        }
    }
    String::from_str(fixed)
}

/// Two optional warning texts merged onto separate lines.
pub open spec fn combined_warnings(a: Option<Seq<char>>, b: Option<Seq<char>>) -> Option<
    Seq<char>,
> {
    match (a, b) {
        (Some(x), Some(y)) => Some(x + seq!['\n'] + y),
        (Some(x), None) => Some(x),
        (None, Some(y)) => Some(y),
        (None, None) => None,
    }
}

/// Merge an earlier warning with a later one.
pub fn combine_warnings(a: Option<String>, b: Option<String>) -> (r: Option<String>)
    ensures
        r.deep_view() == combined_warnings(a.deep_view(), b.deep_view()),
{
    match (a, b) {
        (Some(x), Some(y)) => {
            let mut m = x;
            m.append("\n");
            m.append(y.as_str());
            proof {
                reveal_strlit("\n");
                assert("\n"@ =~= seq!['\n']);
            }
            Some(m)
        },
        (Some(x), None) => Some(x),
        (None, Some(y)) => Some(y),
        (None, None) => None,
    }
}

} // verus!
