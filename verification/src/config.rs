//! The configuration the supervisor runs under: execution defaults from
//! one optional JSON document, and the external model registry from a
//! second. Loading and parsing the files is the caller's concern; the
//! functions here turn whatever was parsed (or the absence of a file)
//! into the resolved values, with the fallbacks the defaults require.

use vstd::prelude::*;
use vstd::string::StringExecFns;
use crate::text::{trim_str, trimmed_of};

verus! {

/// The fallback timeout when none is configured.
pub const DEFAULT_TIMEOUT_SECS: u64 = 600;

/// The hard ceiling no timeout may exceed.
pub const MAX_TIMEOUT_SECS: u64 = 3600;

/// Execution defaults, as the configuration document carries them.
pub struct ServerConfig {
    pub additional_args: Vec<String>,
    pub timeout_secs: Option<u64>,
    pub default_auto: Option<String>,
    pub max_timeout_secs: Option<u64>,
    pub allow_high_autonomy: bool,
}

/// The mathematical image of the execution defaults.
pub ghost struct ServerConfigView {
    pub additional_args: Seq<Seq<char>>,
    pub timeout_secs: Option<u64>,
    pub default_auto: Option<Seq<char>>,
    pub max_timeout_secs: Option<u64>,
    pub allow_high_autonomy: bool,
}

impl View for ServerConfig {
    type V = ServerConfigView;

    open spec fn view(&self) -> ServerConfigView {
        ServerConfigView {
            additional_args: self.additional_args.deep_view(),
            timeout_secs: self.timeout_secs,
            default_auto: self.default_auto.deep_view(),
            max_timeout_secs: self.max_timeout_secs,
            allow_high_autonomy: self.allow_high_autonomy,
        }
    }
}

/// What holds when no configuration file is present: no extra arguments,
/// no overrides, and the highest autonomy level allowed.
pub open spec fn default_server_config() -> ServerConfigView {
    ServerConfigView {
        additional_args: Seq::empty(),
        timeout_secs: None,
        default_auto: None,
        max_timeout_secs: None,
        allow_high_autonomy: true,
    }
}

/// The extra argument list as it is kept: each entry trimmed, with the
/// entries that are empty after trimming dropped.
pub open spec fn cleaned_args(args: Seq<Seq<char>>) -> Seq<Seq<char>>
    decreases args.len(),
{
    if args.len() == 0 {
        Seq::empty()
    } else {
        let rest = cleaned_args(args.drop_last());
        let t = trimmed_of(args.last());
        if t.len() > 0 {
            rest.push(t)
        } else {
            rest
        }
    }
}

/// Resolve the execution defaults from the parsed configuration
/// document, or fall back to the built-in defaults when the file was
/// absent or malformed.
pub fn server_config(parsed: Option<ServerConfig>) -> (cfg: ServerConfig)
    ensures
        parsed is None ==> cfg@ == default_server_config(),
        parsed matches Some(p) ==> cfg@ == (ServerConfigView {
            additional_args: cleaned_args(p@.additional_args),
            ..p@
        }),
{
    match parsed {
        None => {
            let cfg = ServerConfig {
                additional_args: Vec::new(),
                timeout_secs: None,
                default_auto: None,
                max_timeout_secs: None,
                allow_high_autonomy: true,
            };
            proof {
                assert(cfg@.additional_args =~= Seq::<Seq<char>>::empty());
            }
            cfg
        },
        Some(p) => {
            let ghost raw = p@.additional_args;
            let mut cleaned: Vec<String> = Vec::new();
            let n = p.additional_args.len();
            let mut i: usize = 0;
            while i < n
                invariant
                    i <= n,
                    n == p.additional_args.len(),
                    raw == p.additional_args.deep_view(),
                    cleaned.deep_view() =~~= cleaned_args(raw.take(i as int)),
                decreases n - i,
            {
                let t = trim_str(p.additional_args[i].as_str());
                proof {
                    assert(raw[i as int] == p.additional_args@[i as int]@);
                    assert(raw.take(i + 1).drop_last() =~= raw.take(i as int));
                    assert(raw.take(i + 1).last() == raw[i as int]);
                }
                if !t.is_empty() {
                    let ghost prevc = cleaned.deep_view();
                    cleaned.push(String::from_str(t));
                    proof {
                        assert(cleaned.deep_view().len() == prevc.len() + 1);
                        assert(cleaned.deep_view()[prevc.len() as int] == t@);
                        assert(forall|j: int| 0 <= j < prevc.len() ==> cleaned.deep_view()[j]
                            == prevc[j]);
                        assert(cleaned.deep_view() =~~= cleaned_args(raw.take(i + 1)));
                    }
                }
                i += 1;
            }
            proof {
                assert(raw.take(n as int) =~= raw);
            }
            let cfg = ServerConfig {
                additional_args: cleaned,
                timeout_secs: p.timeout_secs,
                default_auto: p.default_auto,
                max_timeout_secs: p.max_timeout_secs,
                allow_high_autonomy: p.allow_high_autonomy,
            };
            cfg
        },
    }
}

/// The configured extra arguments, as a fresh list.
pub fn default_additional_args(cfg: &ServerConfig) -> (r: Vec<String>)
    ensures
        r.deep_view() == cfg@.additional_args,
{
    let mut out: Vec<String> = Vec::new();
    let n = cfg.additional_args.len();
    let mut i: usize = 0;
    while i < n
        invariant
            i <= n,
            n == cfg.additional_args.len(),
            out.deep_view() =~~= cfg@.additional_args.take(i as int),
        decreases n - i,
    {
        let ghost prev = out.deep_view();
        let elem = cfg.additional_args[i].clone();
        proof {
            assert(elem@ == cfg@.additional_args[i as int]);
        }
        out.push(elem);
        proof {
            assert(out.deep_view().len() == prev.len() + 1);
            assert(out.deep_view()[i as int] == cfg@.additional_args[i as int]);
            assert(forall|j: int| 0 <= j < i ==> out.deep_view()[j] == prev[j]);
            assert(out.deep_view() =~~= cfg@.additional_args.take(i + 1));
        }
        i += 1;
    }
    proof {
        assert(cfg@.additional_args.take(n as int) =~= cfg@.additional_args);
    }
    out
}

/// The timeout the configuration yields: a configured value within the
/// ceiling stands, one above the ceiling is clamped to it, anything
/// else falls back to the default.
pub open spec fn default_timeout_of(cfg: ServerConfigView) -> u64 {
    match cfg.timeout_secs {
        Some(t) => if 0 < t && t <= MAX_TIMEOUT_SECS {
            t
        } else if t > MAX_TIMEOUT_SECS {
            MAX_TIMEOUT_SECS
        } else {
            DEFAULT_TIMEOUT_SECS
        },
        None => DEFAULT_TIMEOUT_SECS,
    }
}

pub fn default_timeout_secs(cfg: &ServerConfig) -> (r: u64)
    ensures
        r == default_timeout_of(cfg@),
{
    match cfg.timeout_secs {
        Some(t) => {
            if 0 < t && t <= MAX_TIMEOUT_SECS {
                t
            } else if t > MAX_TIMEOUT_SECS {
                MAX_TIMEOUT_SECS
            } else {
                DEFAULT_TIMEOUT_SECS
            }
        },
        None => DEFAULT_TIMEOUT_SECS,
    }
}

/// The autonomy level used when the caller names none: the configured
/// default when it is not blank, else the highest level.
pub open spec fn default_auto_of(cfg: ServerConfigView) -> Option<Seq<char>> {
    match cfg.default_auto {
        Some(a) => if trimmed_of(a).len() > 0 {
            Some(a)
        } else {
            Some("high"@)
        },
        None => Some("high"@),
    }
}

pub fn get_default_auto(cfg: &ServerConfig) -> (r: Option<String>)
    ensures
        r.deep_view() == default_auto_of(cfg@),
{
    if let Some(a) = &cfg.default_auto {
        let t = trim_str(a.as_str());
        if !t.is_empty() {
            return Some(a.clone());
        }
    }
    Some(String::from_str("high"))
}

/// The deadline an execution actually runs under: the caller's request
/// (or the configured default), clamped to the configured maximum.
pub open spec fn effective_timeout_of(requested: Option<u64>, cfg: ServerConfigView) -> u64 {
    let t = match requested {
        Some(t) => t,
        None => default_timeout_of(cfg),
    };
    let m = match cfg.max_timeout_secs {
        Some(m) => m,
        None => MAX_TIMEOUT_SECS,
    };
    if t <= m {
        t
    } else {
        m
    }
}

pub fn effective_timeout_secs(requested: Option<u64>, cfg: &ServerConfig) -> (r: u64)
    ensures
        r == effective_timeout_of(requested, cfg@),
{
    let t = match requested {
        Some(t) => t,
        None => default_timeout_secs(cfg),
    };
    let m = match cfg.max_timeout_secs {
        Some(m) => m,
        None => MAX_TIMEOUT_SECS,
    };
    if t <= m {
        t
    } else {
        m
    }
}

/// One entry of the external model registry.
pub struct CustomModel {
    pub model_display_name: String,
    pub model: String,
    pub provider: String,
}

/// The mathematical image of a registry entry.
pub ghost struct CustomModelView {
    pub model_display_name: Seq<char>,
    pub model: Seq<char>,
    pub provider: Seq<char>,
}

impl View for CustomModel {
    type V = CustomModelView;

    open spec fn view(&self) -> CustomModelView {
        CustomModelView {
            model_display_name: self.model_display_name@,
            model: self.model@,
            provider: self.provider@,
        }
    }
}

impl DeepView for CustomModel {
    type V = CustomModelView;

    open spec fn deep_view(&self) -> CustomModelView {
        self.view()
    }
}

/// The external model registry.
pub struct FactoryConfig {
    pub custom_models: Vec<CustomModel>,
}

/// The mathematical image of the registry.
pub ghost struct FactoryConfigView {
    pub custom_models: Seq<CustomModelView>,
}

impl View for FactoryConfig {
    type V = FactoryConfigView;

    open spec fn view(&self) -> FactoryConfigView {
        FactoryConfigView { custom_models: self.custom_models.deep_view() }
    }
}

/// Resolve the model registry from the parsed document, or fall back to
/// an empty registry when the file was absent or malformed.
pub fn factory_config(parsed: Option<FactoryConfig>) -> (cfg: FactoryConfig)
    ensures
        parsed is None ==> cfg@.custom_models == Seq::<CustomModelView>::empty(),
        parsed matches Some(p) ==> cfg@ == p@,
{
    match parsed {
        None => {
            let cfg = FactoryConfig { custom_models: Vec::new() };
            proof {
                assert(cfg@.custom_models =~= Seq::<CustomModelView>::empty());
            }
            cfg
        },
        Some(p) => p,
    }
}

} // verus!
