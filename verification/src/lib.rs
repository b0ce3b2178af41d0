//! Control plane for a multi-protocol proxy engine.
//!
//! The crate turns stored endpoint records into one engine configuration
//! document, validates protocol and transport settings before they reach the
//! engine, and reconciles observed traffic against per-endpoint quotas.
//! Every function carries a contract that Verus proves. The few items that
//! call into other crates (`serde_json` in `json`, `argon2` in `password`,
//! `x25519_dalek`, `rand` and `base64` in `reality_keys`) state what is taken
//! on trust in their doc comments.

pub mod applier;
pub mod env_file;
pub mod errors;
pub mod fields;
pub mod inbound;
pub mod inspect;
pub mod json;
pub mod password;
pub mod protocol_settings;
pub mod reality;
pub mod reality_keys;
pub mod security;
pub mod stats;
pub mod stream_settings;
pub mod text;
pub mod token_validator;
pub mod traffic_service;
pub mod xray_config;
pub mod xray_config_builder;
pub mod xray_service;
