//! The settings of the server, as the DCS-gRPC Lua config gives them.
use vstd::prelude::*;

use crate::status::opt_view;

verus! {

/// The settings of the server.
#[derive(Clone)]
pub struct Config {
    pub version: String,
    pub write_dir: String,
    pub dll_path: String,
    pub lua_path: String,
    pub host: String,
    pub port: u16,
    pub debug: bool,
    pub eval_enabled: bool,
    pub integrity_check_disabled: bool,
    pub tts: Option<TtsConfig>,
    pub srs: Option<SrsConfig>,
    pub auth: Option<AuthConfig>,
}

/// The text-to-speech settings.
#[derive(Clone)]
pub struct TtsConfig {
    pub default_provider: TtsProvider,
    pub provider: Option<TtsProviderConfig>,
}

impl Default for TtsConfig {
    fn default() -> (r: Self)
        ensures
            r.default_provider == TtsProvider::Win,
            r.provider is None,
    {
        TtsConfig { default_provider: TtsProvider::Win, provider: None }
    }
}

/// The settings of each text-to-speech provider.
#[derive(Clone)]
pub struct TtsProviderConfig {
    pub aws: Option<AwsConfig>,
    pub azure: Option<AzureConfig>,
    pub gcloud: Option<GCloudConfig>,
    pub win: Option<WinConfig>,
}

/// A text-to-speech provider.
#[derive(Clone, Copy, Debug, PartialEq, Eq, Structural)]
pub enum TtsProvider {
    Aws,
    Azure,
    GCloud,
    Win,
}

impl Default for TtsProvider {
    fn default() -> (r: Self)
        ensures
            r == TtsProvider::Win,
    {
        TtsProvider::Win
    }
}

/// The text that stands in a config's printout for a secret.
pub open spec fn redacted_text() -> Seq<char> {
    "<REDACTED>"@
}

/// A secret as a printout shows it: its presence, never its value.
pub open spec fn redacted_view(o: Option<String>) -> Option<Seq<char>> {
    match o {
        Some(_) => Some(redacted_text()),
        None => None,
    }
}

fn redact(o: &Option<String>) -> (r: Option<String>)
    ensures
        opt_view(r) == redacted_view(*o),
{
    match o {
        Some(_) => Some(String::from_str("<REDACTED>")),
        None => None,
    }
}

fn copy_opt(o: &Option<String>) -> (r: Option<String>)
    ensures
        opt_view(r) == opt_view(*o),
{
    match o {
        Some(s) => Some(s.clone()),
        None => None,
    }
}

/// The settings of AWS Polly.
#[derive(Clone)]
pub struct AwsConfig {
    pub key: Option<String>,
    pub secret: Option<String>,
    pub region: Option<String>,
    pub default_voice: Option<String>,
}

impl AwsConfig {
    /// The settings as they may be printed: key and secret are replaced by a marker.
    pub fn redacted(&self) -> (r: AwsConfig)
        ensures
            opt_view(r.key) == redacted_view(self.key),
            opt_view(r.secret) == redacted_view(self.secret),
            opt_view(r.region) == opt_view(self.region),
            opt_view(r.default_voice) == opt_view(self.default_voice),
    {
        AwsConfig {
            key: redact(&self.key),
            secret: redact(&self.secret),
            region: copy_opt(&self.region),
            default_voice: copy_opt(&self.default_voice),
        }
    }
}

/// The settings of Azure text-to-speech.
#[derive(Clone)]
pub struct AzureConfig {
    pub key: Option<String>,
    pub region: Option<String>,
    pub default_voice: Option<String>,
}

impl AzureConfig {
    /// The settings as they may be printed: the key is replaced by a marker.
    pub fn redacted(&self) -> (r: AzureConfig)
        ensures
            opt_view(r.key) == redacted_view(self.key),
            opt_view(r.region) == opt_view(self.region),
            opt_view(r.default_voice) == opt_view(self.default_voice),
    {
        AzureConfig {
            key: redact(&self.key),
            region: copy_opt(&self.region),
            default_voice: copy_opt(&self.default_voice),
        }
    }
}

/// The settings of Google Cloud text-to-speech.
#[derive(Clone)]
pub struct GCloudConfig {
    pub key: Option<String>,
    pub default_voice: Option<String>,
}

impl GCloudConfig {
    /// The settings as they may be printed: the key is replaced by a marker.
    pub fn redacted(&self) -> (r: GCloudConfig)
        ensures
            opt_view(r.key) == redacted_view(self.key),
            opt_view(r.default_voice) == opt_view(self.default_voice),
    {
        GCloudConfig { key: redact(&self.key), default_voice: copy_opt(&self.default_voice) }
    }
}

/// The settings of Windows text-to-speech.
#[derive(Clone, Debug)]
pub struct WinConfig {
    pub default_voice: Option<String>,
}

/// An IPv4 or IPv6 address.
#[derive(Clone, Copy, Debug, PartialEq, Eq, Structural)]
pub enum IpAddress {
    V4(u8, u8, u8, u8),
    V6(u16, u16, u16, u16, u16, u16, u16, u16),
}

/// An IP address and a port.
#[derive(Clone, Copy, Debug, PartialEq, Eq, Structural)]
pub struct SocketAddress {
    pub ip: IpAddress,
    pub port: u16,
}

/// The settings of the connection to the SRS server.
#[derive(Clone, Debug)]
pub struct SrsConfig {
    pub addr: Option<SocketAddress>,
}

impl Default for SrsConfig {
    fn default() -> (r: Self)
        ensures
            r.addr is None,
    {
        SrsConfig { addr: None }
    }
}

/// The address of the SRS server when the settings name none.
pub open spec fn default_srs_address() -> SocketAddress {
    SocketAddress { ip: IpAddress::V4(127, 0, 0, 1), port: 5002 }
}

impl SrsConfig {
    /// The address of the SRS server: the configured one, else `127.0.0.1:5002`.
    pub fn server_address(&self) -> (r: SocketAddress)
        ensures
            r == match self.addr {
                Some(a) => a,
                None => default_srs_address(),
            },
    {
        match self.addr {
            Some(a) => a,
            None => SocketAddress { ip: IpAddress::V4(127, 0, 0, 1), port: 5002 },
        }
    }
}

/// The settings of the API key authentication.
#[derive(Clone, Debug)]
pub struct AuthConfig {
    pub enabled: bool,
    pub tokens: Vec<ApiKey>,
}

impl Default for AuthConfig {
    fn default() -> (r: Self)
        ensures
            !r.enabled,
            r.tokens@.len() == 0,
    {
        AuthConfig { enabled: false, tokens: Vec::new() }
    }
}

/// An API key: the client it was given to and its token.
#[derive(Clone, Debug)]
pub struct ApiKey {
    pub client: String,
    pub token: String,
}

/// The host the server listens on when the settings name none.
pub fn default_host() -> (r: String)
    ensures
        r@ == "127.0.0.1"@,
{
    String::from_str("127.0.0.1")
}

/// The port the server listens on when the settings name none.
pub fn default_port() -> (r: u16)
    ensures
        r == 50051,
{
    50051
}

} // verus!
