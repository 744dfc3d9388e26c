use dcs_grpc::config::{self, TtsProvider, TtsProviderConfig};
use dcs_grpc::status::Code;
use dcs_grpc::tts::{
    aws_voice, azure_api_url, azure_ssml, azure_token_url, azure_voice, coqui_address,
    coqui_speaker, decode_pcm, gcloud_url, gcloud_voice, opus_frame_ranges, select_windows_voice,
    speak_ssml, voice_language, TtsConfig,
};
use dcs_grpc::tts_request::{
    aws_synthesis, client_position, frame_pacing_delay, resolve_synthesis, srs_client_name,
    srs_coalition, transmission_duration_ms, transmit_request_from_lua, tts_event, InputPosition,
    ProviderRequest, TtsOptions,
};
use dcs_grpc::srs_message::{Coalition, Position};

fn full_config(default_provider: TtsProvider) -> config::TtsConfig {
    config::TtsConfig {
        default_provider,
        provider: Some(TtsProviderConfig {
            aws: Some(config::AwsConfig {
                key: Some("k".to_string()),
                secret: Some("s".to_string()),
                region: Some("eu-central-1".to_string()),
                default_voice: Some("Joanna".to_string()),
            }),
            azure: Some(config::AzureConfig {
                key: Some("ak".to_string()),
                region: None,
                default_voice: None,
            }),
            gcloud: Some(config::GCloudConfig {
                key: Some("gk".to_string()),
                default_voice: None,
            }),
            win: Some(config::WinConfig { default_voice: Some("David".to_string()) }),
        }),
    }
}

#[test]
fn requested_provider_and_voice_win_over_defaults() {
    let cfg = full_config(TtsProvider::Win);
    let r = resolve_synthesis(
        Some(ProviderRequest::Aws { voice: Some("Brian".to_string()) }),
        &cfg,
        false,
    )
    .unwrap();
    match r {
        TtsConfig::Aws(a) => {
            assert_eq!(a.voice.as_deref(), Some("Brian"));
            assert_eq!(a.key, "k");
            assert_eq!(a.secret, "s");
            assert_eq!(a.region, "eu-central-1");
        }
        _ => panic!("expected AWS"),
    }
    match resolve_synthesis(Some(ProviderRequest::Aws { voice: None }), &cfg, false).unwrap() {
        TtsConfig::Aws(a) => assert_eq!(a.voice.as_deref(), Some("Joanna")),
        _ => panic!("expected AWS"),
    }
}

#[test]
fn default_provider_is_used_without_request() {
    let cfg = full_config(TtsProvider::GCloud);
    match resolve_synthesis(None, &cfg, false).unwrap() {
        TtsConfig::GCloud(g) => {
            assert_eq!(g.key, "gk");
            assert!(g.voice.is_none());
        }
        _ => panic!("expected GCloud"),
    }
    let cfg = full_config(TtsProvider::Win);
    match resolve_synthesis(None, &cfg, true).unwrap() {
        TtsConfig::Win(w) => assert_eq!(w.voice.as_deref(), Some("David")),
        _ => panic!("expected Windows"),
    }
}

#[test]
fn missing_settings_are_refused() {
    let cfg = full_config(TtsProvider::Azure);
    let err = resolve_synthesis(None, &cfg, true).unwrap_err();
    assert_eq!(err.code, Code::FailedPrecondition);
    assert_eq!(err.message, "tts.provider.azure.region config not set");

    let empty = config::TtsConfig::default();
    let err = resolve_synthesis(Some(ProviderRequest::Aws { voice: None }), &empty, true).unwrap_err();
    assert_eq!(err.message, "tts.provider.aws.key config not set");
    let err = resolve_synthesis(Some(ProviderRequest::GCloud { voice: None }), &empty, true).unwrap_err();
    assert_eq!(err.message, "tts.provider.gcloud.key config not set");

    let mut no_secret = full_config(TtsProvider::Aws);
    no_secret.provider.as_mut().unwrap().aws.as_mut().unwrap().secret = None;
    let err = resolve_synthesis(None, &no_secret, true).unwrap_err();
    assert_eq!(err.message, "tts.provider.aws.secret config not set");

    let err = resolve_synthesis(None, &empty, false).unwrap_err();
    assert_eq!(err.code, Code::Unavailable);
    assert_eq!(err.message, "Windows TTS is only available on Windows");
}

#[test]
fn transmission_details() {
    assert_eq!(srs_client_name(&None), "DCS-gRPC");
    assert_eq!(srs_client_name(&Some("ATIS".to_string())), "ATIS");
    assert_eq!(srs_coalition(2), Coalition::Red);
    assert_eq!(srs_coalition(3), Coalition::Blue);
    assert_eq!(srs_coalition(1), Coalition::Blue);
    assert_eq!(transmission_duration_ms(50), 1000);
    assert_eq!(transmission_duration_ms(0), 0);
    assert_eq!(transmission_duration_ms(300_000_000), ((300_000_000u64 * 20) % (1u64 << 32)) as u32);
    assert_eq!(frame_pacing_delay(0, 5_000_000), Some(15_000_000));
    assert_eq!(frame_pacing_delay(1, 40_000_000), None);
    assert_eq!(frame_pacing_delay(1, 39_999_999), Some(1));
}

#[test]
fn lua_transmission_defaults() {
    let r = transmit_request_from_lua("<speak/>".to_string(), 251_000_000, None);
    assert_eq!(r.coalition, 1);
    assert!(!r.is_async);
    assert!(r.plaintext.is_none());
    let r = transmit_request_from_lua(
        "x".to_string(),
        1,
        Some(TtsOptions {
            plaintext: Some("hello".to_string()),
            srs_client_name: None,
            position: None,
            coalition: Some(2),
            provider: None,
        }),
    );
    assert_eq!(r.coalition, 2);
    assert_eq!(r.plaintext.as_deref(), Some("hello"));
}

#[test]
fn provider_requests_are_worded_as_the_providers_expect() {
    assert_eq!(
        speak_ssml("en", "Hello"),
        r#"<speak version="1.0" xml:lang="en">Hello</speak>"#
    );
    assert_eq!(aws_voice(&None), "Brian");
    assert_eq!(azure_voice(&None), "en-US-AriaNeural");
    assert_eq!(gcloud_voice(&None), "en-GB-Neural2-A");
    assert_eq!(gcloud_voice(&Some("de-DE-X".to_string())), "de-DE-X");
    assert_eq!(voice_language("en-US-AriaNeural"), "en-US");
    assert_eq!(
        azure_ssml("en-US-AriaNeural", "Hi"),
        r#"<speak version="1.0" xml:lang="en-US"><voice xml:lang="en-US" name="en-US-AriaNeural">Hi</voice></speak>"#
    );
    assert_eq!(
        azure_token_url("westeurope"),
        "https://westeurope.api.cognitive.microsoft.com/sts/v1.0/issueToken"
    );
    assert_eq!(
        azure_api_url("westeurope"),
        "https://westeurope.tts.speech.microsoft.com/cognitiveservices/v1"
    );
    assert_eq!(
        gcloud_url("abc"),
        "https://texttospeech.googleapis.com/v1/text:synthesize?key=abc"
    );
    assert_eq!(coqui_address(&None), "http://localhost:4000");
    assert_eq!(coqui_speaker(&None), "p250");
}

#[test]
fn windows_voice_selection() {
    let voices = vec![
        ("de-DE".to_string(), "Microsoft Hedda".to_string()),
        ("en-US".to_string(), "Microsoft David".to_string()),
        ("en-GB".to_string(), "Microsoft Hazel".to_string()),
    ];
    assert_eq!(select_windows_voice(&voices, &None), Some(1));
    assert_eq!(select_windows_voice(&voices, &Some("Hazel".to_string())), Some(2));
    assert_eq!(select_windows_voice(&voices, &Some("Hedda".to_string())), None);
    assert_eq!(select_windows_voice(&vec![], &None), None);
}

#[test]
fn audio_is_cut_into_20ms_frames() {
    assert_eq!(opus_frame_ranges(320).len(), 0);
    assert_eq!(opus_frame_ranges(321), vec![(0, 320)]);
    assert_eq!(opus_frame_ranges(640), vec![(0, 320)]);
    assert_eq!(opus_frame_ranges(641), vec![(0, 320), (320, 640)]);
    assert_eq!(decode_pcm(&[0x01, 0x00, 0xff, 0xff, 0x00, 0x80]), vec![1, -1, -32768]);
}

#[test]
fn aws_regions_are_looked_up() {
    let mut cfg = full_config(TtsProvider::Aws);
    cfg.provider.as_mut().unwrap().aws.as_mut().unwrap().region = Some("EUCentral1".to_string());
    match resolve_synthesis(None, &cfg, false).unwrap() {
        TtsConfig::Aws(a) => assert_eq!(a.region, "eu-central-1"),
        _ => panic!("expected AWS"),
    }

    cfg.provider.as_mut().unwrap().aws.as_mut().unwrap().region = Some("Mars-1".to_string());
    let err = resolve_synthesis(None, &cfg, false).unwrap_err();
    assert_eq!(err.code, Code::Internal);
    assert_eq!(err.message, "Not a valid AWS region: mars-1");
}

#[test]
fn aws_synthesis_takes_the_looked_up_region() {
    match aws_synthesis(None, "k".to_string(), "s".to_string(), Ok("us-west-2".to_string())) {
        Ok(TtsConfig::Aws(a)) => {
            assert!(a.voice.is_none());
            assert_eq!(a.key, "k");
            assert_eq!(a.secret, "s");
            assert_eq!(a.region, "us-west-2");
        }
        _ => panic!("expected AWS"),
    }
    let err = aws_synthesis(
        Some("Brian".to_string()),
        "k".to_string(),
        "s".to_string(),
        Err("no such region".to_string()),
    )
    .unwrap_err();
    assert_eq!(err.code, Code::Internal);
    assert_eq!(err.message, "no such region");
}

#[test]
fn transmissions_announce_their_text_and_position() {
    let e = tts_event(Some("Hello".to_string()), 251_000_000, 2, Some("ATIS".to_string())).unwrap();
    assert_eq!(e.text, "Hello");
    assert_eq!(e.frequency, 251_000_000);
    assert_eq!(e.coalition, 2);
    assert_eq!(e.srs_client_name.as_deref(), Some("ATIS"));
    assert!(tts_event(None, 251_000_000, 2, None).is_none());

    assert_eq!(client_position(None), Position { lat: 0, lon: 0, alt: 0 });
    assert_eq!(
        client_position(Some(InputPosition { lat: 1, lon: 2, alt: 3 })),
        Position { lat: 1, lon: 2, alt: 3 }
    );
}
