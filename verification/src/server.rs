//! What the server starts with: the address it listens on and the settings of its services,
//! taken from the config.
use vstd::prelude::*;

use crate::config::{AuthConfig, Config, SocketAddress, SrsConfig, TtsConfig, TtsProvider};
use crate::decimal::{decimal_digits, push_decimal};

verus! {

/// The text of the address the server listens on: the host, a colon and the port.
pub open spec fn listen_address_text(host: Seq<char>, port: u16) -> Seq<char> {
    host + ":"@ + decimal_digits(port as nat)
}

/// The text of the address the server listens on, to be parsed as a socket address.
pub fn listen_address(config: &Config) -> (r: String)
    ensures
        r@ == listen_address_text(config.host@, config.port),
{
    let mut s = config.host.clone();
    s.append(":");
    push_decimal(&mut s, config.port as u64);
    s
}

/// Why the server could not be set up.
#[derive(Clone, Debug)]
pub enum StartError {
    /// The runtime could not be started, as `text` describes.
    Io(String),
    /// The host and port do not make a socket address, as `text` describes.
    AddrParse(String),
}

impl StartError {
    /// The text of the error.
    pub fn message(&self) -> (r: String)
        ensures
            r@ == match self {
                StartError::Io(t) => t@,
                StartError::AddrParse(t) => t@,
            },
    {
        match self {
            StartError::Io(t) => t.clone(),
            StartError::AddrParse(t) => t.clone(),
        }
    }
}

/// What the server runs with.
#[derive(Clone)]
pub struct ServerState {
    pub addr: SocketAddress,
    pub eval_enabled: bool,
    pub tts_config: TtsConfig,
    pub srs_config: SrsConfig,
    pub auth_config: AuthConfig,
}

/// What the server runs with, given what parsing its address gave: the address, whether
/// `Eval` is allowed, and the text-to-speech, SRS and authentication settings, each
/// defaulted where the config has none. An address that did not parse is refused.
pub fn server_state(config: Config, addr: Result<SocketAddress, String>) -> (r: Result<
    ServerState,
    StartError,
>)
    ensures
        match addr {
            Err(e) => r matches Err(StartError::AddrParse(t)) && t@ == e@,
            Ok(a) => r matches Ok(s) && {
                &&& s.addr == a
                &&& s.eval_enabled == config.eval_enabled
                &&& match config.tts {
                    Some(t) => s.tts_config.default_provider == t.default_provider
                        && s.tts_config.provider == t.provider,
                    None => s.tts_config.default_provider == TtsProvider::Win
                        && s.tts_config.provider is None,
                }
                &&& match config.srs {
                    Some(c) => s.srs_config.addr == c.addr,
                    None => s.srs_config.addr is None,
                }
                &&& match config.auth {
                    Some(c) => s.auth_config.enabled == c.enabled && s.auth_config.tokens@
                        == c.tokens@,
                    None => !s.auth_config.enabled && s.auth_config.tokens@.len() == 0,
                }
            },
        },
{
    let addr = match addr {
        Ok(a) => a,
        Err(e) => return Err(StartError::AddrParse(e)),
    };
    let tts_config = match config.tts {
        Some(t) => t,
        None => TtsConfig::default(),
    };
    let srs_config = match config.srs {
        Some(c) => c,
        None => SrsConfig::default(),
    };
    let auth_config = match config.auth {
        Some(c) => c,
        None => AuthConfig::default(),
    };
    Ok(ServerState { addr, eval_enabled: config.eval_enabled, tts_config, srs_config, auth_config })
}

} // verus!
