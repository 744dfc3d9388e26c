//! DCS-gRPC: the decision logic of a gRPC server that runs inside the DCS World
//! mission scripting environment, together with its SRS (SimpleRadio Standalone)
//! client protocol and its text-to-speech request handling.
pub mod decimal;
pub mod srs_message;
pub mod status;
pub mod config;
pub mod tts_request;
pub mod geometry;
pub mod units;
pub mod sguid;
pub mod srs_client;
pub mod auth;
pub mod integrity;
pub mod lua_value;
pub mod mission_time;
pub mod services;
pub mod plugins;
pub mod abortable;
pub mod stats;
pub mod tts;
pub mod audio;
pub mod server;
