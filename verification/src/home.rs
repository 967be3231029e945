//! Where the configuration directory lives: the `LLMX_HOME` override when
//! it is set, `.llmx` under the home directory otherwise.
//!
//! Reading the environment and the filesystem is the caller's business;
//! the decision between the two sources, and the path it yields, is made
//! here.

use vstd::prelude::*;
use vstd::string::StringExecFns;

verus! {

/// What the caller must do to obtain the configuration directory.
#[derive(Debug, PartialEq, Eq)]
pub enum HomeDirective {
    /// The override is set and non-empty: canonicalize this path, and fail
    /// if it does not exist.
    CanonicalizeEnv { path: String },
    /// No usable override: use this path — `.llmx` under the home
    /// directory — without checking that it exists.
    UseDefault { path: String },
    /// No override and no home directory: the location cannot be
    /// determined.
    HomeNotFound,
}

/// What holds of the directive when the override is unset or empty: the
/// default under the home directory, or failure when there is none.
pub open spec fn spec_default_directive(d: HomeDirective, home_dir: Option<String>) -> bool {
    &&& home_dir matches Some(h) ==> (d matches HomeDirective::UseDefault { path } && path@ == h@
        + "/.llmx"@)
    &&& home_dir is None ==> d == HomeDirective::HomeNotFound
}

/// Decide the configuration directory from the `LLMX_HOME` override and
/// the home directory, each as the caller found it.
pub fn resolve_llmx_home(env_value: Option<String>, home_dir: Option<String>) -> (d:
    HomeDirective)
    ensures
        env_value matches Some(v) ==> (v@.len() > 0 ==> d == (HomeDirective::CanonicalizeEnv {
            path: v,
        })),
        env_value matches Some(v) ==> (v@.len() == 0 ==> spec_default_directive(d, home_dir)),
        env_value is None ==> spec_default_directive(d, home_dir),
{
    let env_nonempty = match &env_value {
        Some(v) => !v.as_str().is_empty(),
        None => false,
    };
    if env_nonempty {
        match env_value {
            Some(v) => HomeDirective::CanonicalizeEnv { path: v },
            None => vstd::pervasive::unreached(),
        }
    } else {
        match home_dir {
            Some(h) => HomeDirective::UseDefault { path: h.concat("/.llmx") },
            None => HomeDirective::HomeNotFound,
        }
    }
}

} // verus!
