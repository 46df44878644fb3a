//! Settings read from the environment.
use vstd::prelude::*;

verus! {

#[verifier::external_type_specification]
#[verifier::external_body]
pub struct ExEnvconfigError(envconfig::Error);

/// Reads the environment variable `name` as text, through
/// `envconfig::load_optional_var`. That function parses the value with
/// `FromStr`, which cannot fail for `String`, so the result is `Ok`; whether
/// the variable is set, and to what, depends on the environment and is not
/// stated.
#[verifier::external_body]
fn load_optional_text(name: &'static str) -> (r: Result<Option<String>, envconfig::Error>)
    ensures
        r is Ok,
{
    envconfig::load_optional_var::<String>(name, None)
}

/// The settings of a node taken from its environment.
#[derive(Clone)]
#[non_exhaustive]
pub struct EnvVars {
    /// A chrono-like format string for the time in logs, from
    /// `SCALAR_LOG_TIME_FORMAT`; by default `%b %d %H:%M:%S%.3f`.
    pub log_time_format: String,
    /// The log filter, from `SCALAR_LOG`.
    pub log_levels: Option<String>,
}

impl EnvVars {
    /// The settings given the values of `SCALAR_LOG_TIME_FORMAT` and
    /// `SCALAR_LOG`, where they are set.
    pub fn from_values(log_time_format: Option<String>, log_levels: Option<String>) -> (r: Self)
        ensures
            r.log_time_format@ == match log_time_format {
                Some(s) => s@,
                None => "%b %d %H:%M:%S%.3f"@,
            },
            r.log_levels == log_levels,
    {
        let log_time_format = match log_time_format {
            Some(s) => s,
            None => "%b %d %H:%M:%S%.3f".to_owned(),
        };
        EnvVars { log_time_format, log_levels }
    }

    /// The text shown for the settings when they are printed for debugging:
    /// a fixed phrase, so that no value that may be sensitive leaks.
    pub fn debug_text(&self) -> (r: String)
        ensures
            r@ == "env vars"@,
    {
        "env vars".to_owned()
    }

    /// The settings read through `read`, which gives the value of a
    /// variable, if it is set: the log time format is what `read` gives for
    /// `SCALAR_LOG_TIME_FORMAT` (or the default), the log filter what it gives
    /// for `SCALAR_LOG`.
    pub fn from_lookup<F: Fn(&'static str) -> Option<String>>(read: F) -> (r: Self)
        requires
            forall|name: &'static str| #[trigger] read.requires((name,)),
        ensures
            exists|v: Option<String>| #[trigger] read.ensures(("SCALAR_LOG_TIME_FORMAT",), v) && r.log_time_format@ == match v {
                Some(s) => s@,
                None => "%b %d %H:%M:%S%.3f"@,
            },
            exists|v: Option<String>| #[trigger] read.ensures(("SCALAR_LOG",), v) && r.log_levels == v,
    {
        let time_format = read("SCALAR_LOG_TIME_FORMAT");
        let levels = read("SCALAR_LOG");
        EnvVars::from_values(time_format, levels)
    }

    /// The settings of the process environment, each variable read with
    /// `envconfig` (see [`EnvVars::from_lookup`]).
    pub fn from_env() -> (r: Result<Self, envconfig::Error>)
        ensures
            r is Ok,
    {
        Ok(EnvVars::from_lookup(|name: &'static str| -> (v: Option<String>)
            {
                match load_optional_text(name) {
                    Ok(v) => v,
                    Err(_) => None,
                }
            }))
    }
}

} // verus!
