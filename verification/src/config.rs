//! Startup configuration and its documented defaults.
//!
//! A configuration source is read and parsed by the surrounding process; a
//! missing or malformed source is never fatal — the documented defaults are
//! used instead, which is decided here.

use vstd::prelude::*;
use vstd::string::StringExecFns;

verus! {

/// The recognized configuration options.
pub struct Config {
    /// Network bind address of the listener.
    pub url: String,
    /// Target output frame height in pixels; the width is derived from the
    /// source aspect ratio.
    pub frame_height: i32,
}

/// The bind address used when no configuration supplies one.
pub fn default_url() -> (r: String)
    ensures
        r@ == "127.0.0.1:8082"@,
{
    String::from_str("127.0.0.1:8082")
}

/// The target frame height used when no configuration supplies one.
pub fn default_frame_height() -> (r: i32)
    ensures
        r == 540,
{
    540
}

impl Default for Config {
    /// The documented defaults.
    fn default() -> (c: Config)
        ensures
            c.url@ == "127.0.0.1:8082"@,
            c.frame_height == 540,
    {
        Config { url: default_url(), frame_height: default_frame_height() }
    }
}

/// The configuration the process runs with: the supplied one when the
/// source was present and well-formed, the documented defaults otherwise.
pub fn resolve_config(parsed: Option<Config>) -> (c: Config)
    ensures
        parsed matches Some(p) ==> c == p,
        parsed is None ==> c.url@ == "127.0.0.1:8082"@ && c.frame_height == 540,
{
    match parsed {
        Some(p) => p,
        None => Config::default(),
    }
}

} // verus!
