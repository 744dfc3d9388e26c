use std::hash::Hasher;

use dcs_grpc::auth::{AuthInterceptor, BearerHeader};
use dcs_grpc::config::{
    default_host, default_port, ApiKey, AuthConfig, AwsConfig, AzureConfig, Config, GCloudConfig,
    IpAddress, SocketAddress, SrsConfig, TtsConfig, TtsProvider,
};
use dcs_grpc::server::{listen_address, server_state, StartError};
use dcs_grpc::integrity::{check_file, file_hash, FileRead, IntegrityError};
use dcs_grpc::lua_value::{pretty_print_value, LuaValue};
use dcs_grpc::services::{route, DcsService};
use dcs_grpc::status::{check_eval_enabled, ipc_env, to_status, version_or_unknown, Code, IpcEnv, IpcError};

fn auth(enabled: bool) -> AuthInterceptor {
    AuthInterceptor {
        auth_config: AuthConfig {
            enabled,
            tokens: vec![
                ApiKey { client: "a".to_string(), token: "secret-1".to_string() },
                ApiKey { client: "b".to_string(), token: "secret-2".to_string() },
            ],
        },
    }
}

#[test]
fn defaults_of_the_config() {
    assert_eq!(default_host(), "127.0.0.1");
    assert_eq!(default_port(), 50051);
    assert_eq!(TtsProvider::default(), TtsProvider::Win);
    assert!(!AuthConfig::default().enabled);
    assert_eq!(
        SrsConfig::default().server_address(),
        SocketAddress { ip: IpAddress::V4(127, 0, 0, 1), port: 5002 }
    );
    let custom = SocketAddress { ip: IpAddress::V4(10, 0, 0, 2), port: 5010 };
    assert_eq!(SrsConfig { addr: Some(custom) }.server_address(), custom);
}

#[test]
fn secrets_are_redacted_for_printing() {
    let aws = AwsConfig {
        key: Some("AKIA".to_string()),
        secret: Some("SECRET-REDACTED".to_string()),
        region: Some("us-east-1".to_string()),
        default_voice: None,
    }
    .redacted();
    assert_eq!(aws.key.as_deref(), Some("<REDACTED>"));
    assert_eq!(aws.secret.as_deref(), Some("<REDACTED>"));
    assert_eq!(aws.region.as_deref(), Some("us-east-1"));
    let azure = AzureConfig { key: None, region: Some("r".to_string()), default_voice: None }.redacted();
    assert!(azure.key.is_none());
    let g = GCloudConfig { key: Some("k".to_string()), default_voice: Some("v".to_string()) }.redacted();
    assert_eq!(g.key.as_deref(), Some("<REDACTED>"));
    assert_eq!(g.default_voice.as_deref(), Some("v"));
}

#[test]
fn auth_admits_known_tokens_only_when_enabled() {
    let on = auth(true);
    assert!(on.intercept(&BearerHeader::Token("secret-2".to_string())).is_ok());
    let err = on.intercept(&BearerHeader::Token("nope".to_string())).unwrap_err();
    assert_eq!(err.code, Code::Unauthenticated);
    assert_eq!(err.message, "Unauthenticated");
    let off = auth(false);
    assert!(off.intercept(&BearerHeader::Token("anything".to_string())).is_ok());
    // a request without a readable bearer header is refused even with authentication off
    assert!(off.intercept(&BearerHeader::Missing).is_err());
    assert!(off.intercept(&BearerHeader::Unreadable).is_err());
}

#[test]
fn script_errors_map_to_grpc_codes() {
    let s = to_status(IpcError::Script { kind: Some("NOT_FOUND".to_string()), message: "gone".to_string() });
    assert_eq!((s.code, s.message.as_str()), (Code::NotFound, "gone"));
    let s = to_status(IpcError::Script { kind: Some("INVALID_ARGUMENT".to_string()), message: "m".to_string() });
    assert_eq!(s.code, Code::InvalidArgument);
    let s = to_status(IpcError::Script { kind: Some("ALREADY_EXISTS".to_string()), message: "m".to_string() });
    assert_eq!(s.code, Code::AlreadyExists);
    let s = to_status(IpcError::Script { kind: Some("UNIMPLEMENTED".to_string()), message: "m".to_string() });
    assert_eq!(s.code, Code::Unimplemented);
    let s = to_status(IpcError::Script { kind: Some("OTHER".to_string()), message: "m".to_string() });
    assert_eq!(s.code, Code::Internal);
    let s = to_status(IpcError::Script { kind: None, message: "m".to_string() });
    assert_eq!(s.code, Code::Internal);
    let s = to_status(IpcError::Other { text: "channel closed".to_string() });
    assert_eq!((s.code, s.message.as_str()), (Code::Internal, "channel closed"));
    assert_eq!(Code::Unimplemented.number(), 12);
}

#[test]
fn eval_is_refused_when_disabled() {
    assert!(check_eval_enabled(true).is_ok());
    let e = check_eval_enabled(false).unwrap_err();
    assert_eq!(e.code, Code::PermissionDenied);
    assert_eq!(e.message, "eval operation is disabled");
    assert_eq!(ipc_env(1), Some(IpcEnv::Mission));
    assert_eq!(ipc_env(2), Some(IpcEnv::Hook));
    assert_eq!(ipc_env(3), None);
    assert_eq!(version_or_unknown(None), "unknown");
    assert_eq!(version_or_unknown(Some("0.8.0")), "0.8.0");
}

fn std_hash(data: &[u8]) -> u64 {
    let mut h = std::collections::hash_map::DefaultHasher::new();
    for chunk in data.chunks(1024) {
        h.write(chunk);
    }
    h.finish()
}

#[test]
fn file_hash_feeds_1024_byte_chunks() {
    let data: Vec<u8> = (0..5000u32).map(|i| (i % 251) as u8).collect();
    assert_eq!(file_hash(&data), std_hash(&data));
    assert_eq!(file_hash(&[]), std_hash(&[]));
    assert_ne!(file_hash(b"abc"), file_hash(b"abd"));
}

#[test]
fn integrity_check_of_one_file() {
    let data = b"-- grpc.lua".to_vec();
    let h = std_hash(&data);
    assert!(check_file("a.lua".to_string(), h, FileRead::Contents(data.clone())).is_ok());
    let e = check_file("a.lua".to_string(), h ^ 1, FileRead::Contents(data)).unwrap_err();
    assert_eq!(
        e.message(),
        "integrity check failed (hash mismatch of `a.lua`), DCS-gRPC is not started, please check your installation"
    );
    let e = check_file("b.lua".to_string(), 0, FileRead::OpenFailed("not found".to_string())).unwrap_err();
    assert!(matches!(e, IntegrityError::Read { .. }));
    assert_eq!(
        e.message(),
        "integrity check failed (could not read `b.lua`: not found), DCS-gRPC is not started, please check your installation"
    );
    let e = check_file("c.lua".to_string(), 0, FileRead::ReadFailed("io".to_string())).unwrap_err();
    assert_eq!(
        e.message(),
        "integrity check failed (could not create hash for `c.lua`: io), DCS-gRPC is not started, please check your installation"
    );
}

#[test]
fn lua_values_print_nested_and_indented() {
    let v = LuaValue::Table(vec![
        (LuaValue::Str(Some("name".to_string())), LuaValue::Str(Some("Aerial-1".to_string()))),
        (LuaValue::Integer(-42), LuaValue::Boolean(true)),
        (
            LuaValue::Str(Some("inner".to_string())),
            LuaValue::Table(vec![(LuaValue::Integer(1), LuaValue::Number("4.2".to_string()))]),
        ),
        (LuaValue::Str(Some("f".to_string())), LuaValue::Function),
    ]);
    let expected = "{\n  \"name\" = \"Aerial-1\",\n  -42 = true,\n  \"inner\" = {\n    1 = 4.2,\n  },\n  \"f\" = [function],\n}";
    assert_eq!(pretty_print_value(&v, 0).unwrap(), expected);
    assert_eq!(pretty_print_value(&LuaValue::Nil, 0).unwrap(), "nil");
    assert_eq!(pretty_print_value(&LuaValue::Table(vec![]), 1).unwrap(), "{\n  }");
    assert_eq!(pretty_print_value(&LuaValue::Integer(i64::MIN), 0).unwrap(), "-9223372036854775808");
    let bad = LuaValue::Table(vec![(LuaValue::Integer(1), LuaValue::Str(None))]);
    assert!(pretty_print_value(&bad, 0).is_err());
}

#[test]
fn requests_are_routed_by_path() {
    assert_eq!(route("/dcs.mission.v0.MissionService/StreamEvents"), Some(DcsService::Mission));
    assert_eq!(route("//dcs.hook.v0.HookService/Eval"), Some(DcsService::Hook));
    assert_eq!(route("dcs.world.v0.WorldService/GetAirbases"), Some(DcsService::World));
    assert_eq!(route("/dcs.controller.v0.ControllerService/SetAlarmState"), Some(DcsService::Controller));
    assert_eq!(route("/dcs.coalition.v0.CoalitionService/AddGroup"), Some(DcsService::Coalition));
    assert_eq!(route("/example.greeter.v0.GreeterService/Greet"), None);
    assert_eq!(route(""), None);
    assert_eq!(route("/"), None);
}

fn config(tts: Option<TtsConfig>, auth: Option<AuthConfig>) -> Config {
    Config {
        version: "0.8.0".to_string(),
        write_dir: "C:/Saved Games/DCS".to_string(),
        dll_path: "C:/Saved Games/DCS/Mods/tech/DCS-gRPC".to_string(),
        lua_path: "C:/Saved Games/DCS/Scripts/DCS-gRPC".to_string(),
        host: "0.0.0.0".to_string(),
        port: 50051,
        debug: false,
        eval_enabled: true,
        integrity_check_disabled: false,
        tts,
        srs: None,
        auth,
    }
}

#[test]
fn the_server_listens_on_host_and_port() {
    assert_eq!(listen_address(&config(None, None)), "0.0.0.0:50051");
    let mut c = config(None, None);
    c.host = "::1".to_string();
    c.port = 7;
    assert_eq!(listen_address(&c), "::1:7");
}

#[test]
fn server_settings_default_where_the_config_has_none() {
    let addr = SocketAddress { ip: IpAddress::V4(0, 0, 0, 0), port: 50051 };
    let s = match server_state(config(None, None), Ok(addr)) {
        Ok(s) => s,
        Err(_) => panic!("expected the server settings"),
    };
    assert_eq!(s.addr, addr);
    assert!(s.eval_enabled);
    assert_eq!(s.tts_config.default_provider, TtsProvider::Win);
    assert!(s.tts_config.provider.is_none());
    assert!(s.srs_config.addr.is_none());
    assert!(!s.auth_config.enabled);
    assert!(s.auth_config.tokens.is_empty());

    let tts = TtsConfig { default_provider: TtsProvider::Azure, provider: None };
    let s = match server_state(config(Some(tts), Some(auth(true).auth_config)), Ok(addr)) {
        Ok(s) => s,
        Err(_) => panic!("expected the server settings"),
    };
    assert_eq!(s.tts_config.default_provider, TtsProvider::Azure);
    assert!(s.auth_config.enabled);
    assert_eq!(s.auth_config.tokens.len(), 2);

    match server_state(config(None, None), Err("invalid socket address syntax".to_string())) {
        Err(StartError::AddrParse(t)) => assert_eq!(t, "invalid socket address syntax"),
        _ => panic!("expected the address to be refused"),
    }
}
