//! The settings of a manager: the engine's reachability servers, the idle
//! timeout of rooms and the interval at which idle rooms are looked for.

use vstd::prelude::*;

verus! {

/// The reachability server that a manager uses unless it is given others.
pub const DEFAULT_STUN_SERVER: &'static str = "stun:stun.l.google.com:19302";

/// For how many seconds a room may stay empty where nothing else is set.
pub const DEFAULT_IDLE_TIMEOUT_SECS: u64 = 120;

/// Every how many seconds idle rooms are looked for. The interval does not
/// depend on the idle timeout.
pub const POLL_INTERVAL_SECS: u64 = 60;

/// One reachability server: its addresses and the credentials it asks for.
pub struct IceServer {
    pub urls: Vec<String>,
    pub username: String,
    pub credential: String,
}

/// What the engine is told when a connection is asked for.
pub struct EngineConfig {
    pub ice_servers: Vec<IceServer>,
}

/// The configuration with the one default reachability server, without
/// credentials.
pub open spec fn is_default_config(config: EngineConfig) -> bool {
    &&& config.ice_servers@.len() == 1
    &&& config.ice_servers@[0].urls@.len() == 1
    &&& config.ice_servers@[0].urls@[0]@ == DEFAULT_STUN_SERVER@
    &&& config.ice_servers@[0].username@ == Seq::<char>::empty()
    &&& config.ice_servers@[0].credential@ == Seq::<char>::empty()
}

impl EngineConfig {
    /// The configuration that names the default reachability server alone.
    pub fn with_default_server() -> (config: Self)
        ensures
            is_default_config(config),
    {
        let mut urls: Vec<String> = Vec::new();
        urls.push(DEFAULT_STUN_SERVER.to_owned());
        let mut ice_servers: Vec<IceServer> = Vec::new();
        ice_servers.push(IceServer { urls, username: String::new(), credential: String::new() });
        EngineConfig { ice_servers }
    }
}

/// The number that a text stands for as an unsigned 64-bit integer in decimal
/// notation, where it stands for one.
pub uninterp spec fn parsed_u64(text: Seq<char>) -> Option<u64>;

/// The idle timeout in seconds for a setting that was read as `parsed`: the
/// number where there is one, the default otherwise.
pub open spec fn timeout_for(parsed: Option<u64>) -> u64 {
    match parsed {
        Some(seconds) => seconds,
        None => DEFAULT_IDLE_TIMEOUT_SECS,
    }
}

/// Reads a decimal number with `str::parse::<u64>` of the standard library.
/// The contract gives the result a name, `parsed_u64`, and claims that it
/// depends on the characters of the text alone; it says nothing of which
/// texts are numbers.
#[verifier::external_body]
fn parse_u64(text: &str) -> (r: Option<u64>)
    ensures
        r == parsed_u64(text@),
{
    text.parse::<u64>().ok()
}

/// The idle timeout in seconds for a setting that was read as `parsed`.
pub fn timeout_or_default(parsed: Option<u64>) -> (seconds: u64)
    ensures
        seconds == timeout_for(parsed),
{
    match parsed {
        Some(seconds) => seconds,
        None => DEFAULT_IDLE_TIMEOUT_SECS,
    }
}

/// The idle timeout in seconds for the raw setting `raw`: the number it
/// holds, or the default where the setting is absent or is no number.
pub fn idle_timeout_secs(raw: Option<&str>) -> (seconds: u64)
    ensures
        seconds == match raw {
            Some(text) => timeout_for(parsed_u64(text@)),
            None => DEFAULT_IDLE_TIMEOUT_SECS,
        },
{
    match raw {
        Some(text) => timeout_or_default(parse_u64(text)),
        None => DEFAULT_IDLE_TIMEOUT_SECS,
    }
}

} // verus!
