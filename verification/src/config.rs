//! The service's configuration as an explicit value.

use vstd::prelude::*;

verus! {

/// Where the service listens and the key that access tokens are checked
/// against.
#[derive(Clone, Debug, PartialEq, Eq)]
pub struct Config {
    pub host_port: String,
    pub clerk_jwt_public_key: String,
}

/// The host that is listened on when none is configured.
pub open spec fn default_host() -> Seq<char> {
    "127.0.0.1"@
}

/// The port that is listened on when none is configured.
pub open spec fn default_port() -> Seq<char> {
    "8000"@
}

/// A configured text, or the default where nothing is configured.
pub open spec fn text_or(value: Option<String>, default: Seq<char>) -> Seq<char> {
    match value {
        Some(text) => text@,
        None => default,
    }
}

/// Builds the configuration from what the environment holds: host and port
/// fall back to `127.0.0.1` and `8000`, and are joined by a colon.
pub fn get_config(host: Option<String>, port: Option<String>, key: String) -> (config: Config)
    ensures
        config.host_port@ == text_or(host, default_host()) + seq![':'] + text_or(
            port,
            default_port(),
        ),
        config.clerk_jwt_public_key@ == key@,
{
    proof {
        reveal_strlit(":");
    }
    let mut host_port = match host {
        Some(text) => text,
        None => "127.0.0.1".to_owned(),
    };
    host_port.append(":");
    match port {
        Some(text) => host_port.append(text.as_str()),
        None => host_port.append("8000"),
    }
    assert(":"@ =~= seq![':']);
    Config { host_port, clerk_jwt_public_key: key }
}

} // verus!
