//! How a text-to-speech transmission request is turned into the settings of one
//! synthesis: which provider speaks, with which voice and credentials, and how the
//! resulting voice frames are paced on the radio.
use vstd::prelude::*;

use crate::config::{self, TtsProvider};
use crate::tts::{AwsConfig, AzureConfig, GCloudConfig, TtsConfig, WinConfig};
use crate::srs_message::{Coalition, Position};
use crate::status::{opt_view, Code, RpcStatus, StatusView};

verus! {

/// The provider a transmission request asks for, with the voice it asks for, if any.
#[derive(Clone, Debug)]
pub enum ProviderRequest {
    Aws { voice: Option<String> },
    Azure { voice: Option<String> },
    GCloud { voice: Option<String> },
    Win { voice: Option<String> },
}

/// What the settings of one synthesis say.
pub enum SynthesisView {
    Aws { voice: Option<Seq<char>>, key: Seq<char>, secret: Seq<char>, region: Seq<char> },
    Azure { voice: Option<Seq<char>>, key: Seq<char>, region: Seq<char> },
    Coqui { addr: Option<Seq<char>>, voice: Option<Seq<char>> },
    GCloud { voice: Option<Seq<char>>, key: Seq<char> },
    Win { voice: Option<Seq<char>> },
}

/// What the settings of one synthesis say.
pub open spec fn synthesis_view(c: TtsConfig) -> SynthesisView {
    match c {
        TtsConfig::Aws(a) => SynthesisView::Aws {
            voice: opt_view(a.voice),
            key: a.key@,
            secret: a.secret@,
            region: a.region@,
        },
        TtsConfig::Azure(a) => SynthesisView::Azure {
            voice: opt_view(a.voice),
            key: a.key@,
            region: a.region@,
        },
        TtsConfig::Coqui(c) => SynthesisView::Coqui { addr: opt_view(c.addr), voice: opt_view(c.voice) },
        TtsConfig::GCloud(g) => SynthesisView::GCloud { voice: opt_view(g.voice), key: g.key@ },
        TtsConfig::Win(w) => SynthesisView::Win { voice: opt_view(w.voice) },
    }
}

/// The view of the outcome of resolving a request.
pub open spec fn outcome_view(r: Result<TtsConfig, RpcStatus>) -> Result<
    SynthesisView,
    StatusView,
> {
    match r {
        Ok(c) => Ok(synthesis_view(c)),
        Err(s) => Err(s@),
    }
}

/// The refusal of a request for want of a setting, named by `path`.
pub open spec fn missing_setting(path: Seq<char>) -> Result<SynthesisView, StatusView> {
    Err(StatusView { code: Code::FailedPrecondition, message: path + " config not set"@ })
}

/// The AWS settings, if the config has any.
pub open spec fn aws_settings(cfg: config::TtsConfig) -> Option<config::AwsConfig> {
    match cfg.provider {
        Some(p) => p.aws,
        None => None,
    }
}

/// The Azure settings, if the config has any.
pub open spec fn azure_settings(cfg: config::TtsConfig) -> Option<config::AzureConfig> {
    match cfg.provider {
        Some(p) => p.azure,
        None => None,
    }
}

/// The Google Cloud settings, if the config has any.
pub open spec fn gcloud_settings(cfg: config::TtsConfig) -> Option<config::GCloudConfig> {
    match cfg.provider {
        Some(p) => p.gcloud,
        None => None,
    }
}

/// The Windows settings, if the config has any.
pub open spec fn win_settings(cfg: config::TtsConfig) -> Option<config::WinConfig> {
    match cfg.provider {
        Some(p) => p.win,
        None => None,
    }
}

/// The voice asked for, else the configured default voice.
pub open spec fn voice_or_default(
    voice: Option<Seq<char>>,
    default_voice: Option<Seq<char>>,
) -> Option<Seq<char>> {
    match voice {
        Some(v) => Some(v),
        None => default_voice,
    }
}

/// What `<rusoto_core::Region as FromStr>::from_str` makes of a region's name: the name of
/// the region it stands for (`Region::name`), or the text of the error.
pub uninterp spec fn aws_region(name: Seq<char>) -> Result<Seq<char>, Seq<char>>;

/// Calls `<rusoto_core::Region as FromStr>::from_str`, through `str::parse`, and hands back the name of the region
/// or the text of the error. The source accepts the names of the regions AWS has, in either
/// case and with or without dashes, and its error reads `Not a valid AWS region: ` followed
/// by the lower-cased name; the contract leaves both to the name `aws_region`.
#[verifier::external_body]
fn parse_aws_region(name: &str) -> (r: Result<String, String>)
    ensures
        match r {
            Ok(n) => aws_region(name@) == Ok::<Seq<char>, Seq<char>>(n@),
            Err(m) => aws_region(name@) == Err::<Seq<char>, Seq<char>>(m@),
        },
{
    match name.parse::<rusoto_core::Region>() {
        Ok(region) => Ok(region.name().to_string()),
        Err(e) => Err(e.to_string()),
    }
}

/// The AWS synthesis: key, secret and region must be configured, in that order, and the
/// region must be one that AWS has.
pub open spec fn aws_outcome(voice: Option<Seq<char>>, s: Option<config::AwsConfig>) -> Result<
    SynthesisView,
    StatusView,
> {
    let default_voice = match s {
        Some(c) => opt_view(c.default_voice),
        None => None,
    };
    let key = match s {
        Some(c) => opt_view(c.key),
        None => None,
    };
    let secret = match s {
        Some(c) => opt_view(c.secret),
        None => None,
    };
    let region = match s {
        Some(c) => opt_view(c.region),
        None => None,
    };
    if key is None {
        missing_setting("tts.provider.aws.key"@)
    } else if secret is None {
        missing_setting("tts.provider.aws.secret"@)
    } else if region is None {
        missing_setting("tts.provider.aws.region"@)
    } else {
        match aws_region(region.unwrap()) {
            Ok(name) => Ok(
                SynthesisView::Aws {
                    voice: voice_or_default(voice, default_voice),
                    key: key.unwrap(),
                    secret: secret.unwrap(),
                    region: name,
                },
            ),
            Err(message) => Err(StatusView { code: Code::Internal, message }),
        }
    }
}

/// The Azure synthesis: key and region must be configured, in that order.
pub open spec fn azure_outcome(voice: Option<Seq<char>>, s: Option<config::AzureConfig>) -> Result<
    SynthesisView,
    StatusView,
> {
    let default_voice = match s {
        Some(c) => opt_view(c.default_voice),
        None => None,
    };
    let key = match s {
        Some(c) => opt_view(c.key),
        None => None,
    };
    let region = match s {
        Some(c) => opt_view(c.region),
        None => None,
    };
    if key is None {
        missing_setting("tts.provider.azure.key"@)
    } else if region is None {
        missing_setting("tts.provider.azure.region"@)
    } else {
        Ok(
            SynthesisView::Azure {
                voice: voice_or_default(voice, default_voice),
                key: key.unwrap(),
                region: region.unwrap(),
            },
        )
    }
}

/// The Google Cloud synthesis: the key must be configured.
pub open spec fn gcloud_outcome(voice: Option<Seq<char>>, s: Option<config::GCloudConfig>) -> Result<
    SynthesisView,
    StatusView,
> {
    let default_voice = match s {
        Some(c) => opt_view(c.default_voice),
        None => None,
    };
    let key = match s {
        Some(c) => opt_view(c.key),
        None => None,
    };
    if key is None {
        missing_setting("tts.provider.gcloud.key"@)
    } else {
        Ok(
            SynthesisView::GCloud {
                voice: voice_or_default(voice, default_voice),
                key: key.unwrap(),
            },
        )
    }
}

/// The Windows synthesis, which only a Windows host can perform.
pub open spec fn win_outcome(
    voice: Option<Seq<char>>,
    s: Option<config::WinConfig>,
    win_available: bool,
) -> Result<SynthesisView, StatusView> {
    let default_voice = match s {
        Some(c) => opt_view(c.default_voice),
        None => None,
    };
    if win_available {
        Ok(SynthesisView::Win { voice: voice_or_default(voice, default_voice) })
    } else {
        Err(
            StatusView {
                code: Code::Unavailable,
                message: "Windows TTS is only available on Windows"@,
            },
        )
    }
}

/// The synthesis a request leads to: the provider it asks for, else the configured
/// default provider with no particular voice.
pub open spec fn synthesis_outcome(
    request: Option<ProviderRequest>,
    cfg: config::TtsConfig,
    win_available: bool,
) -> Result<SynthesisView, StatusView> {
    match request {
        Some(ProviderRequest::Aws { voice }) => aws_outcome(opt_view(voice), aws_settings(cfg)),
        Some(ProviderRequest::Azure { voice }) => azure_outcome(
            opt_view(voice),
            azure_settings(cfg),
        ),
        Some(ProviderRequest::GCloud { voice }) => gcloud_outcome(
            opt_view(voice),
            gcloud_settings(cfg),
        ),
        Some(ProviderRequest::Win { voice }) => win_outcome(
            opt_view(voice),
            win_settings(cfg),
            win_available,
        ),
        None => match cfg.default_provider {
            TtsProvider::Aws => aws_outcome(None, aws_settings(cfg)),
            TtsProvider::Azure => azure_outcome(None, azure_settings(cfg)),
            TtsProvider::GCloud => gcloud_outcome(None, gcloud_settings(cfg)),
            TtsProvider::Win => win_outcome(None, win_settings(cfg), win_available),
        },
    }
}

fn clone_opt(o: &Option<String>) -> (r: Option<String>)
    ensures
        opt_view(r) == opt_view(*o),
{
    match o {
        Some(s) => Some(s.clone()),
        None => None,
    }
}

fn pick_voice(voice: Option<String>, default_voice: &Option<String>) -> (r: Option<String>)
    ensures
        opt_view(r) == voice_or_default(opt_view(voice), opt_view(*default_voice)),
{
    match voice {
        Some(v) => Some(v),
        None => clone_opt(default_voice),
    }
}

fn missing(path: &str) -> (r: RpcStatus)
    ensures
        r.code == Code::FailedPrecondition,
        r.message@ == path@ + " config not set"@,
{
    let mut message = String::from_str(path);
    message.append(" config not set");
    RpcStatus { code: Code::FailedPrecondition, message }
}

fn resolve_aws(voice: Option<String>, s: &Option<config::AwsConfig>) -> (r: Result<
    TtsConfig,
    RpcStatus,
>)
    ensures
        outcome_view(r) == aws_outcome(opt_view(voice), *s),
{
    let none: Option<String> = None;
    let (default_voice, key, secret, region) = match s {
        Some(c) => (&c.default_voice, &c.key, &c.secret, &c.region),
        None => (&none, &none, &none, &none),
    };
    let key = match key {
        Some(k) => k.clone(),
        None => return Err(missing("tts.provider.aws.key")),
    };
    let secret = match secret {
        Some(k) => k.clone(),
        None => return Err(missing("tts.provider.aws.secret")),
    };
    let region = match region {
        Some(k) => parse_aws_region(k.as_str()),
        None => return Err(missing("tts.provider.aws.region")),
    };
    aws_synthesis(pick_voice(voice, default_voice), key, secret, region)
}

/// The AWS synthesis once the configured region has been looked up: with the region's name,
/// or refused with the text of the lookup's error.
pub fn aws_synthesis(
    voice: Option<String>,
    key: String,
    secret: String,
    region: Result<String, String>,
) -> (r: Result<TtsConfig, RpcStatus>)
    ensures
        match region {
            Ok(name) => r matches Ok(TtsConfig::Aws(a)) && opt_view(a.voice) == opt_view(voice)
                && a.key@ == key@ && a.secret@ == secret@ && a.region@ == name@,
            Err(message) => r matches Err(s) && s.code == Code::Internal && s.message@
                == message@,
        },
{
    match region {
        Ok(name) => Ok(TtsConfig::Aws(AwsConfig { voice, key, secret, region: name })),
        Err(message) => Err(RpcStatus { code: Code::Internal, message }),
    }
}

fn resolve_azure(voice: Option<String>, s: &Option<config::AzureConfig>) -> (r: Result<
    TtsConfig,
    RpcStatus,
>)
    ensures
        outcome_view(r) == azure_outcome(opt_view(voice), *s),
{
    let none: Option<String> = None;
    let (default_voice, key, region) = match s {
        Some(c) => (&c.default_voice, &c.key, &c.region),
        None => (&none, &none, &none),
    };
    let key = match key {
        Some(k) => k.clone(),
        None => return Err(missing("tts.provider.azure.key")),
    };
    let region = match region {
        Some(k) => k.clone(),
        None => return Err(missing("tts.provider.azure.region")),
    };
    Ok(TtsConfig::Azure(AzureConfig { voice: pick_voice(voice, default_voice), key, region }))
}

fn resolve_gcloud(voice: Option<String>, s: &Option<config::GCloudConfig>) -> (r: Result<
    TtsConfig,
    RpcStatus,
>)
    ensures
        outcome_view(r) == gcloud_outcome(opt_view(voice), *s),
{
    let none: Option<String> = None;
    let (default_voice, key) = match s {
        Some(c) => (&c.default_voice, &c.key),
        None => (&none, &none),
    };
    let key = match key {
        Some(k) => k.clone(),
        None => return Err(missing("tts.provider.gcloud.key")),
    };
    Ok(TtsConfig::GCloud(GCloudConfig { voice: pick_voice(voice, default_voice), key }))
}

fn resolve_win(voice: Option<String>, s: &Option<config::WinConfig>, win_available: bool) -> (r: Result<
    TtsConfig,
    RpcStatus,
>)
    ensures
        outcome_view(r) == win_outcome(opt_view(voice), *s, win_available),
{
    if !win_available {
        return Err(RpcStatus::new(Code::Unavailable, "Windows TTS is only available on Windows"));
    }
    let none: Option<String> = None;
    let default_voice = match s {
        Some(c) => &c.default_voice,
        None => &none,
    };
    Ok(TtsConfig::Win(WinConfig { voice: pick_voice(voice, default_voice) }))
}

/// Resolves the settings of the synthesis that a transmission request asks for.
///
/// The request's provider is used, else the configured default provider. The voice is the
/// one asked for, else the provider's configured default voice. A credential that the
/// chosen provider needs and that is not configured refuses the request with
/// `FailedPrecondition`; Windows synthesis is refused with `Unavailable` where the host
/// cannot perform it (`win_available` is false).
pub fn resolve_synthesis(
    provider: Option<ProviderRequest>,
    tts_config: &config::TtsConfig,
    win_available: bool,
) -> (r: Result<TtsConfig, RpcStatus>)
    ensures
        outcome_view(r) == synthesis_outcome(provider, *tts_config, win_available),
{
    let none_aws: Option<config::AwsConfig> = None;
    let none_azure: Option<config::AzureConfig> = None;
    let none_gcloud: Option<config::GCloudConfig> = None;
    let none_win: Option<config::WinConfig> = None;
    let (aws, azure, gcloud, win) = match &tts_config.provider {
        Some(p) => (&p.aws, &p.azure, &p.gcloud, &p.win),
        None => (&none_aws, &none_azure, &none_gcloud, &none_win),
    };
    match provider {
        Some(ProviderRequest::Aws { voice }) => resolve_aws(voice, aws),
        Some(ProviderRequest::Azure { voice }) => resolve_azure(voice, azure),
        Some(ProviderRequest::GCloud { voice }) => resolve_gcloud(voice, gcloud),
        Some(ProviderRequest::Win { voice }) => resolve_win(voice, win, win_available),
        None => match tts_config.default_provider {
            TtsProvider::Aws => resolve_aws(None, aws),
            TtsProvider::Azure => resolve_azure(None, azure),
            TtsProvider::GCloud => resolve_gcloud(None, gcloud),
            TtsProvider::Win => resolve_win(None, win, win_available),
        },
    }
}

/// The name under which the transmitting SRS client appears: the requested one, else
/// `DCS-gRPC`.
pub fn srs_client_name(requested: &Option<String>) -> (r: String)
    ensures
        r@ == match requested {
            Some(n) => n@,
            None => "DCS-gRPC"@,
        },
{
    match requested {
        Some(n) => n.clone(),
        None => String::from_str("DCS-gRPC"),
    }
}

/// The number of the red coalition in a gRPC request.
pub open spec fn grpc_red_coalition() -> i32 {
    2
}

/// The SRS side a transmission goes out on: red for a request of the red coalition, blue
/// for any other.
pub fn srs_coalition(request_coalition: i32) -> (r: Coalition)
    ensures
        r == (if request_coalition == grpc_red_coalition() {
            Coalition::Red
        } else {
            Coalition::Blue
        }),
{
    if request_coalition == 2 {
        Coalition::Red
    } else {
        Coalition::Blue
    }
}

/// The length of one voice frame in milliseconds.
pub open spec fn frame_millis() -> nat {
    20
}

/// The play time in milliseconds that a transmission of `frame_count` frames reports, as a
/// 32-bit number (the count of milliseconds modulo 2^32).
pub fn transmission_duration_ms(frame_count: u64) -> (r: u32)
    requires
        frame_count * 20 <= u64::MAX,
    ensures
        r == (frame_count * frame_millis()) % 0x1_0000_0000,
{
    let millis: u64 = frame_count * 20;
    (millis % 0x1_0000_0000) as u32
}

/// How long to wait, in nanoseconds, after sending frame number `index` (counted from
/// zero) when `elapsed_nanos` have passed since the first: until the play time of all
/// frames sent so far has passed; `None` when it already has.
pub fn frame_pacing_delay(index: u64, elapsed_nanos: u128) -> (r: Option<u128>)
    requires
        (index + 1) * 20 <= u64::MAX,
    ensures
        ({
            let playtime = (index + 1) * frame_millis() * 1_000_000;
            &&& playtime > elapsed_nanos ==> r == Some((playtime - elapsed_nanos) as u128)
            &&& playtime <= elapsed_nanos ==> r is None
        }),
{
    let millis: u64 = (index + 1) * 20;
    let playtime: u128 = (millis as u128) * 1_000_000;
    if playtime > elapsed_nanos {
        Some(playtime - elapsed_nanos)
    } else {
        None
    }
}

/// A position given in a request, in billionths of degrees and meters.
#[derive(Clone, Copy, Debug, PartialEq, Eq, Structural)]
pub struct InputPosition {
    pub lat: i64,
    pub lon: i64,
    pub alt: i64,
}

/// The options of a text-to-speech transmission started from the mission's Lua code.
#[derive(Clone, Debug)]
pub struct TtsOptions {
    pub plaintext: Option<String>,
    pub srs_client_name: Option<String>,
    pub position: Option<InputPosition>,
    pub coalition: Option<i32>,
    pub provider: Option<ProviderRequest>,
}

/// A text-to-speech transmission request.
#[derive(Clone, Debug)]
pub struct TransmitRequest {
    pub ssml: String,
    pub plaintext: Option<String>,
    pub frequency: u64,
    pub srs_client_name: Option<String>,
    pub position: Option<InputPosition>,
    pub coalition: i32,
    pub is_async: bool,
    pub provider: Option<ProviderRequest>,
}

/// The number of the neutral coalition in a gRPC request.
pub open spec fn grpc_neutral_coalition() -> i32 {
    1
}

/// The transmission that the Lua call `GRPC.tts(ssml, frequency, options)` asks for: the
/// options' text, client name, position and provider, the neutral coalition unless the
/// options name one, and the caller does not wait for the transmission to end.
pub fn transmit_request_from_lua(ssml: String, frequency: u64, opts: Option<TtsOptions>) -> (r:
    TransmitRequest)
    ensures
        r.ssml == ssml,
        r.frequency == frequency,
        !r.is_async,
        match opts {
            Some(o) => {
                &&& r.plaintext == o.plaintext
                &&& r.srs_client_name == o.srs_client_name
                &&& r.position == o.position
                &&& r.coalition == match o.coalition {
                    Some(c) => c,
                    None => grpc_neutral_coalition(),
                }
                &&& r.provider == o.provider
            },
            None => {
                &&& r.plaintext is None
                &&& r.srs_client_name is None
                &&& r.position is None
                &&& r.coalition == grpc_neutral_coalition()
                &&& r.provider is None
            },
        },
{
    match opts {
        Some(o) => TransmitRequest {
            ssml,
            plaintext: o.plaintext,
            frequency,
            srs_client_name: o.srs_client_name,
            position: o.position,
            coalition: match o.coalition {
                Some(c) => c,
                None => 1,
            },
            is_async: false,
            provider: o.provider,
        },
        None => TransmitRequest {
            ssml,
            plaintext: None,
            frequency,
            srs_client_name: None,
            position: None,
            coalition: 1,
            is_async: false,
            provider: None,
        },
    }
}

/// The position the transmitting SRS client announces: the requested one, else the
/// origin.
pub fn client_position(position: Option<InputPosition>) -> (r: Position)
    ensures
        r == match position {
            Some(p) => Position { lat: p.lat, lon: p.lon, alt: p.alt },
            None => Position { lat: 0, lon: 0, alt: 0 },
        },
{
    match position {
        Some(p) => Position { lat: p.lat, lon: p.lon, alt: p.alt },
        None => Position { lat: 0, lon: 0, alt: 0 },
    }
}

/// The event that tells the mission what a transmission says.
#[derive(Clone, Debug)]
pub struct TtsEvent {
    pub text: String,
    pub frequency: u64,
    pub coalition: i32,
    pub srs_client_name: Option<String>,
}

/// The event of a transmission: only a transmission that comes with its plain text is
/// announced, with its frequency, coalition and client name.
pub fn tts_event(
    plaintext: Option<String>,
    frequency: u64,
    coalition: i32,
    srs_client_name: Option<String>,
) -> (r: Option<TtsEvent>)
    ensures
        match plaintext {
            Some(text) => r matches Some(e) && e.text == text && e.frequency == frequency
                && e.coalition == coalition && e.srs_client_name == srs_client_name,
            None => r is None,
        },
{
    match plaintext {
        Some(text) => Some(TtsEvent { text, frequency, coalition, srs_client_name }),
        None => None,
    }
}

/// The voice of a synthesis: a request that names a voice is spoken with exactly that voice,
/// whichever provider it asks for; one that names none gets the default voice configured
/// for that provider, if any. The synthesis is always by the provider asked for, and a
/// request that asks for none is spoken by the configured default provider with its
/// default voice.
pub proof fn lemma_requested_voice_wins(
    request: Option<ProviderRequest>,
    cfg: config::TtsConfig,
    win_available: bool,
    v: String,
)
    ensures
        request == Some(ProviderRequest::Aws { voice: Some(v) }) && synthesis_outcome(
            request,
            cfg,
            win_available,
        ) is Ok ==> (synthesis_outcome(request, cfg, win_available) matches Ok(
            SynthesisView::Aws { voice, .. },
        ) && voice == Some(v@)),
        request == Some(ProviderRequest::Aws { voice: None }) && synthesis_outcome(
            request,
            cfg,
            win_available,
        ) is Ok ==> (synthesis_outcome(request, cfg, win_available) matches Ok(
            SynthesisView::Aws { voice, .. },
        ) && voice == (match cfg.provider {
            Some(p) => match p.aws {
                Some(c) => opt_view(c.default_voice),
                None => None,
            },
            None => None,
        })),
        request == Some(ProviderRequest::Azure { voice: Some(v) }) && synthesis_outcome(
            request,
            cfg,
            win_available,
        ) is Ok ==> (synthesis_outcome(request, cfg, win_available) matches Ok(
            SynthesisView::Azure { voice, .. },
        ) && voice == Some(v@)),
        request == Some(ProviderRequest::Azure { voice: None }) && synthesis_outcome(
            request,
            cfg,
            win_available,
        ) is Ok ==> (synthesis_outcome(request, cfg, win_available) matches Ok(
            SynthesisView::Azure { voice, .. },
        ) && voice == (match cfg.provider {
            Some(p) => match p.azure {
                Some(c) => opt_view(c.default_voice),
                None => None,
            },
            None => None,
        })),
        request == Some(ProviderRequest::GCloud { voice: Some(v) }) && synthesis_outcome(
            request,
            cfg,
            win_available,
        ) is Ok ==> (synthesis_outcome(request, cfg, win_available) matches Ok(
            SynthesisView::GCloud { voice, .. },
        ) && voice == Some(v@)),
        request == Some(ProviderRequest::GCloud { voice: None }) && synthesis_outcome(
            request,
            cfg,
            win_available,
        ) is Ok ==> (synthesis_outcome(request, cfg, win_available) matches Ok(
            SynthesisView::GCloud { voice, .. },
        ) && voice == (match cfg.provider {
            Some(p) => match p.gcloud {
                Some(c) => opt_view(c.default_voice),
                None => None,
            },
            None => None,
        })),
        request == Some(ProviderRequest::Win { voice: Some(v) }) && synthesis_outcome(
            request,
            cfg,
            win_available,
        ) is Ok ==> (synthesis_outcome(request, cfg, win_available) matches Ok(
            SynthesisView::Win { voice, .. },
        ) && voice == Some(v@)),
        request == Some(ProviderRequest::Win { voice: None }) && synthesis_outcome(
            request,
            cfg,
            win_available,
        ) is Ok ==> (synthesis_outcome(request, cfg, win_available) matches Ok(
            SynthesisView::Win { voice, .. },
        ) && voice == (match cfg.provider {
            Some(p) => match p.win {
                Some(c) => opt_view(c.default_voice),
                None => None,
            },
            None => None,
        })),
        request is None && synthesis_outcome(request, cfg, win_available) is Ok ==> match cfg.default_provider {
            TtsProvider::Aws => (synthesis_outcome(request, cfg, win_available) matches Ok(
                SynthesisView::Aws { voice, .. },
            ) && voice == (match cfg.provider {
                Some(p) => match p.aws {
                    Some(c) => opt_view(c.default_voice),
                    None => None,
                },
                None => None,
            })),
            TtsProvider::Azure => (synthesis_outcome(request, cfg, win_available) matches Ok(
                SynthesisView::Azure { voice, .. },
            ) && voice == (match cfg.provider {
                Some(p) => match p.azure {
                    Some(c) => opt_view(c.default_voice),
                    None => None,
                },
                None => None,
            })),
            TtsProvider::GCloud => (synthesis_outcome(request, cfg, win_available) matches Ok(
                SynthesisView::GCloud { voice, .. },
            ) && voice == (match cfg.provider {
                Some(p) => match p.gcloud {
                    Some(c) => opt_view(c.default_voice),
                    None => None,
                },
                None => None,
            })),
            TtsProvider::Win => (synthesis_outcome(request, cfg, win_available) matches Ok(
                SynthesisView::Win { voice, .. },
            ) && voice == (match cfg.provider {
                Some(p) => match p.win {
                    Some(c) => opt_view(c.default_voice),
                    None => None,
                },
                None => None,
            })),
        },
{
}

/// How a synthesis is refused: a provider with no settings at all is refused for want of its
/// key, with `FailedPrecondition` and the text `tts.provider.<provider>.key config not set`;
/// Windows text-to-speech off Windows is refused with `Unavailable`.
pub proof fn lemma_refusals(request: Option<ProviderRequest>, cfg: config::TtsConfig, v: Option<String>)
    ensures
        cfg.provider is None && request == Some(ProviderRequest::Aws { voice: v })
            ==> synthesis_outcome(request, cfg, true) == Err::<SynthesisView, StatusView>(
            StatusView {
                code: Code::FailedPrecondition,
                message: "tts.provider.aws.key config not set"@,
            },
        ),
        cfg.provider is None && request == Some(ProviderRequest::Azure { voice: v })
            ==> synthesis_outcome(request, cfg, true) == Err::<SynthesisView, StatusView>(
            StatusView {
                code: Code::FailedPrecondition,
                message: "tts.provider.azure.key config not set"@,
            },
        ),
        cfg.provider is None && request == Some(ProviderRequest::GCloud { voice: v })
            ==> synthesis_outcome(request, cfg, true) == Err::<SynthesisView, StatusView>(
            StatusView {
                code: Code::FailedPrecondition,
                message: "tts.provider.gcloud.key config not set"@,
            },
        ),
        request == Some(ProviderRequest::Win { voice: v }) ==> synthesis_outcome(
            request,
            cfg,
            false,
        ) == Err::<SynthesisView, StatusView>(
            StatusView {
                code: Code::Unavailable,
                message: "Windows TTS is only available on Windows"@,
            },
        ),
{
    reveal_strlit("tts.provider.aws.key");
    reveal_strlit("tts.provider.azure.key");
    reveal_strlit("tts.provider.gcloud.key");
    reveal_strlit(" config not set");
    reveal_strlit("tts.provider.aws.key config not set");
    reveal_strlit("tts.provider.azure.key config not set");
    reveal_strlit("tts.provider.gcloud.key config not set");
    assert("tts.provider.aws.key"@ + " config not set"@ =~= "tts.provider.aws.key config not set"@);
    assert("tts.provider.azure.key"@ + " config not set"@ =~= "tts.provider.azure.key config not set"@);
    assert("tts.provider.gcloud.key"@ + " config not set"@ =~= "tts.provider.gcloud.key config not set"@);
}

} // verus!
