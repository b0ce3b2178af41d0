//! Per-protocol settings of an endpoint: VLESS, VMess, Trojan and
//! Shadowsocks, with the JSON form the engine reads.
//!
//! Field names in the JSON form are camel case, and an optional field that is
//! `None` is left out.

use crate::fields::{
    json_list, json_opt, json_opt_bool, json_opt_list, json_opt_str, json_opt_strings,
    json_opt_u16, json_opt_u32, json_opt_u8, list_value, put, put_bool, put_opt_bool,
    put_opt_json, put_opt_list, put_opt_str, put_opt_strings, put_opt_u16, put_opt_u32,
    put_opt_u8, put_str, ToJson,
};
use crate::json::{empty_object, json_model, Json};
use crate::text::str_eq;
use serde_json::Value;
use vstd::prelude::*;

verus! {

/// Settings of a VLESS endpoint.
#[derive(Debug, Clone, Default)]
pub struct VlessSettings {
    /// Clients allowed to connect.
    pub clients: Vec<VlessClient>,
    /// Decryption mode, usually `"none"`.
    pub decryption: Option<String>,
    /// Where to send traffic that is not VLESS.
    pub fallbacks: Option<Vec<Fallback>>,
}

/// One VLESS client.
#[derive(Debug, Clone)]
pub struct VlessClient {
    /// Client UUID.
    pub id: String,
    /// Flow control, `""` or `"xtls-rprx-vision"`.
    pub flow: Option<String>,
    /// User level.
    pub level: Option<u8>,
    /// Email that identifies the user.
    pub email: Option<String>,
}

/// Settings of a VMess endpoint.
#[derive(Debug, Clone, Default)]
pub struct VmessSettings {
    /// Clients allowed to connect.
    pub clients: Vec<VmessClient>,
    /// Policy for clients that name none.
    pub default: Option<VmessDefault>,
    /// Outbound to hand connections to.
    pub detour: Option<VmessDetour>,
    /// Refuse ciphers known to be weak.
    pub disable_insecure_encryption: Option<bool>,
}

/// One VMess client.
#[derive(Debug, Clone)]
pub struct VmessClient {
    /// Client UUID.
    pub id: String,
    /// Number of alternative ids (legacy).
    pub alter_id: Option<u16>,
    /// User level.
    pub level: Option<u8>,
    /// Email that identifies the user.
    pub email: Option<String>,
}

/// Default policy of a VMess endpoint.
#[derive(Debug, Clone)]
pub struct VmessDefault {
    /// Default user level.
    pub level: Option<u8>,
    /// Default number of alternative ids.
    pub alter_id: Option<u16>,
}

/// Detour of a VMess endpoint.
#[derive(Debug, Clone)]
pub struct VmessDetour {
    /// Tag of the outbound to detour to.
    pub to: String,
}

/// Settings of a Trojan endpoint.
#[derive(Debug, Clone, Default)]
pub struct TrojanSettings {
    /// Clients allowed to connect.
    pub clients: Vec<TrojanClient>,
    /// Where to send traffic that is not Trojan.
    pub fallbacks: Option<Vec<Fallback>>,
}

/// One Trojan client.
#[derive(Debug, Clone)]
pub struct TrojanClient {
    /// Client password.
    pub password: String,
    /// User level.
    pub level: Option<u8>,
    /// Email that identifies the user.
    pub email: Option<String>,
    /// Flow control.
    pub flow: Option<String>,
}

/// Settings of a Shadowsocks endpoint.
#[derive(Debug, Clone, Default)]
pub struct ShadowsocksSettings {
    /// Cipher method.
    pub method: String,
    /// Password in single-user mode.
    pub password: Option<String>,
    /// Network mode: `"tcp"`, `"udp"` or `"tcp,udp"`.
    pub network: Option<String>,
    /// Clients in multi-user mode.
    pub clients: Option<Vec<ShadowsocksClient>>,
    /// Carry UDP over TCP.
    pub udp_over_tcp: Option<bool>,
}

/// One Shadowsocks client.
#[derive(Debug, Clone)]
pub struct ShadowsocksClient {
    /// Client password.
    pub password: String,
    /// Cipher method, overriding the endpoint's.
    pub method: Option<String>,
    /// Email that identifies the user.
    pub email: Option<String>,
    /// User level.
    pub level: Option<u8>,
}

/// A fallback destination.
#[derive(Debug, Clone)]
pub struct Fallback {
    /// Server name to match.
    pub name: Option<String>,
    /// ALPN protocol to match.
    pub alpn: Option<String>,
    /// Request path to match.
    pub path: Option<String>,
    /// Destination address.
    pub dest: String,
    /// PROXY protocol version.
    pub xver: Option<u8>,
}

/// Traffic sniffing of an endpoint.
#[derive(Debug, Clone, Default)]
pub struct SniffingSettings {
    /// Whether sniffing is on.
    pub enabled: bool,
    /// Protocols whose destination overrides the requested one.
    pub dest_override: Option<Vec<String>>,
    /// Use connection metadata only.
    pub metadata_only: Option<bool>,
    /// Use the sniffed destination for routing only.
    pub route_only: Option<bool>,
}

/// Port allocation of an endpoint.
#[derive(Debug, Clone, Default)]
pub struct AllocateSettings {
    /// Strategy: `"always"` or `"random"`.
    pub strategy: Option<String>,
    /// Minutes between refreshes.
    pub refresh: Option<u32>,
    /// Number of ports open at a time.
    pub concurrency: Option<u32>,
}

/// Settings of one endpoint, by protocol.
#[derive(Debug, Clone)]
pub enum ProtocolSettings {
    Vless(VlessSettings),
    Vmess(VmessSettings),
    Trojan(TrojanSettings),
    Shadowsocks(ShadowsocksSettings),
}

/// Whether `method` is one of the Shadowsocks ciphers the engine supports.
pub open spec fn is_shadowsocks_method(method: Seq<char>) -> bool {
    ||| method == "aes-128-gcm"@
    ||| method == "aes-256-gcm"@
    ||| method == "chacha20-ietf-poly1305"@
    ||| method == "xchacha20-ietf-poly1305"@
    ||| method == "2022-blake3-aes-128-gcm"@
    ||| method == "2022-blake3-aes-256-gcm"@
    ||| method == "2022-blake3-chacha20-poly1305"@
}

/// Whether `method` is one of the Shadowsocks ciphers the engine supports.
pub fn is_valid_shadowsocks_method(method: &str) -> (valid: bool)
    ensures
        valid == is_shadowsocks_method(method@),
{
    str_eq(method, "aes-128-gcm") || str_eq(method, "aes-256-gcm") || str_eq(
        method,
        "chacha20-ietf-poly1305",
    ) || str_eq(method, "xchacha20-ietf-poly1305") || str_eq(method, "2022-blake3-aes-128-gcm")
        || str_eq(method, "2022-blake3-aes-256-gcm") || str_eq(
        method,
        "2022-blake3-chacha20-poly1305",
    )
}

impl ToJson for VlessClient {
    open spec fn json(&self) -> Json {
        Json::empty_object().with("id"@, Json::Str(self.id@)).with_optional(
            "flow"@,
            json_opt_str(self.flow),
        ).with_optional("level"@, json_opt_u8(self.level)).with_optional(
            "email"@,
            json_opt_str(self.email),
        )
    }

    fn to_json_value(&self) -> (v: Value) {
        let mut out = empty_object();
        put_str(&mut out, "id", self.id.as_str());
        put_opt_str(&mut out, "flow", &self.flow);
        put_opt_u8(&mut out, "level", self.level);
        put_opt_str(&mut out, "email", &self.email);
        out
    }
}

impl ToJson for VmessClient {
    open spec fn json(&self) -> Json {
        Json::empty_object().with("id"@, Json::Str(self.id@)).with_optional(
            "alterId"@,
            json_opt_u16(self.alter_id),
        ).with_optional("level"@, json_opt_u8(self.level)).with_optional(
            "email"@,
            json_opt_str(self.email),
        )
    }

    fn to_json_value(&self) -> (v: Value) {
        let mut out = empty_object();
        put_str(&mut out, "id", self.id.as_str());
        put_opt_u16(&mut out, "alterId", self.alter_id);
        put_opt_u8(&mut out, "level", self.level);
        put_opt_str(&mut out, "email", &self.email);
        out
    }
}

impl ToJson for VmessDefault {
    open spec fn json(&self) -> Json {
        Json::empty_object().with_optional("level"@, json_opt_u8(self.level)).with_optional(
            "alterId"@,
            json_opt_u16(self.alter_id),
        )
    }

    fn to_json_value(&self) -> (v: Value) {
        let mut out = empty_object();
        put_opt_u8(&mut out, "level", self.level);
        put_opt_u16(&mut out, "alterId", self.alter_id);
        out
    }
}

impl ToJson for VmessDetour {
    open spec fn json(&self) -> Json {
        Json::empty_object().with("to"@, Json::Str(self.to@))
    }

    fn to_json_value(&self) -> (v: Value) {
        let mut out = empty_object();
        put_str(&mut out, "to", self.to.as_str());
        out
    }
}

impl ToJson for TrojanClient {
    open spec fn json(&self) -> Json {
        Json::empty_object().with("password"@, Json::Str(self.password@)).with_optional(
            "level"@,
            json_opt_u8(self.level),
        ).with_optional("email"@, json_opt_str(self.email)).with_optional(
            "flow"@,
            json_opt_str(self.flow),
        )
    }

    fn to_json_value(&self) -> (v: Value) {
        let mut out = empty_object();
        put_str(&mut out, "password", self.password.as_str());
        put_opt_u8(&mut out, "level", self.level);
        put_opt_str(&mut out, "email", &self.email);
        put_opt_str(&mut out, "flow", &self.flow);
        out
    }
}

impl ToJson for ShadowsocksClient {
    open spec fn json(&self) -> Json {
        Json::empty_object().with("password"@, Json::Str(self.password@)).with_optional(
            "method"@,
            json_opt_str(self.method),
        ).with_optional("email"@, json_opt_str(self.email)).with_optional(
            "level"@,
            json_opt_u8(self.level),
        )
    }

    fn to_json_value(&self) -> (v: Value) {
        let mut out = empty_object();
        put_str(&mut out, "password", self.password.as_str());
        put_opt_str(&mut out, "method", &self.method);
        put_opt_str(&mut out, "email", &self.email);
        put_opt_u8(&mut out, "level", self.level);
        out
    }
}

impl ToJson for Fallback {
    open spec fn json(&self) -> Json {
        Json::empty_object().with_optional("name"@, json_opt_str(self.name)).with_optional(
            "alpn"@,
            json_opt_str(self.alpn),
        ).with_optional("path"@, json_opt_str(self.path)).with(
            "dest"@,
            Json::Str(self.dest@),
        ).with_optional("xver"@, json_opt_u8(self.xver))
    }

    fn to_json_value(&self) -> (v: Value) {
        let mut out = empty_object();
        put_opt_str(&mut out, "name", &self.name);
        put_opt_str(&mut out, "alpn", &self.alpn);
        put_opt_str(&mut out, "path", &self.path);
        put_str(&mut out, "dest", self.dest.as_str());
        put_opt_u8(&mut out, "xver", self.xver);
        out
    }
}

impl ToJson for VlessSettings {
    open spec fn json(&self) -> Json {
        Json::empty_object().with("clients"@, json_list(self.clients@)).with_optional(
            "decryption"@,
            json_opt_str(self.decryption),
        ).with_optional("fallbacks"@, json_opt_list(self.fallbacks))
    }

    fn to_json_value(&self) -> (v: Value) {
        let mut out = empty_object();
        put(&mut out, "clients", list_value(&self.clients));
        put_opt_str(&mut out, "decryption", &self.decryption);
        put_opt_list(&mut out, "fallbacks", &self.fallbacks);
        out
    }
}

impl ToJson for VmessSettings {
    open spec fn json(&self) -> Json {
        Json::empty_object().with("clients"@, json_list(self.clients@)).with_optional(
            "default"@,
            json_opt(self.default),
        ).with_optional("detour"@, json_opt(self.detour)).with_optional(
            "disableInsecureEncryption"@,
            json_opt_bool(self.disable_insecure_encryption),
        )
    }

    fn to_json_value(&self) -> (v: Value) {
        let mut out = empty_object();
        put(&mut out, "clients", list_value(&self.clients));
        put_opt_json(&mut out, "default", &self.default);
        put_opt_json(&mut out, "detour", &self.detour);
        put_opt_bool(&mut out, "disableInsecureEncryption", self.disable_insecure_encryption);
        out
    }
}

impl ToJson for TrojanSettings {
    open spec fn json(&self) -> Json {
        Json::empty_object().with("clients"@, json_list(self.clients@)).with_optional(
            "fallbacks"@,
            json_opt_list(self.fallbacks),
        )
    }

    fn to_json_value(&self) -> (v: Value) {
        let mut out = empty_object();
        put(&mut out, "clients", list_value(&self.clients));
        put_opt_list(&mut out, "fallbacks", &self.fallbacks);
        out
    }
}

impl ToJson for ShadowsocksSettings {
    open spec fn json(&self) -> Json {
        Json::empty_object().with("method"@, Json::Str(self.method@)).with_optional(
            "password"@,
            json_opt_str(self.password),
        ).with_optional("network"@, json_opt_str(self.network)).with_optional(
            "clients"@,
            json_opt_list(self.clients),
        ).with_optional("udpOverTcp"@, json_opt_bool(self.udp_over_tcp))
    }

    fn to_json_value(&self) -> (v: Value) {
        let mut out = empty_object();
        put_str(&mut out, "method", self.method.as_str());
        put_opt_str(&mut out, "password", &self.password);
        put_opt_str(&mut out, "network", &self.network);
        put_opt_list(&mut out, "clients", &self.clients);
        put_opt_bool(&mut out, "udpOverTcp", self.udp_over_tcp);
        out
    }
}

impl ToJson for SniffingSettings {
    open spec fn json(&self) -> Json {
        Json::empty_object().with("enabled"@, Json::Bool(self.enabled)).with_optional(
            "destOverride"@,
            json_opt_strings(self.dest_override),
        ).with_optional("metadataOnly"@, json_opt_bool(self.metadata_only)).with_optional(
            "routeOnly"@,
            json_opt_bool(self.route_only),
        )
    }

    fn to_json_value(&self) -> (v: Value) {
        let mut out = empty_object();
        put_bool(&mut out, "enabled", self.enabled);
        put_opt_strings(&mut out, "destOverride", &self.dest_override);
        put_opt_bool(&mut out, "metadataOnly", self.metadata_only);
        put_opt_bool(&mut out, "routeOnly", self.route_only);
        out
    }
}

impl ToJson for AllocateSettings {
    open spec fn json(&self) -> Json {
        Json::empty_object().with_optional("strategy"@, json_opt_str(self.strategy)).with_optional(
            "refresh"@,
            json_opt_u32(self.refresh),
        ).with_optional("concurrency"@, json_opt_u32(self.concurrency))
    }

    fn to_json_value(&self) -> (v: Value) {
        let mut out = empty_object();
        put_opt_str(&mut out, "strategy", &self.strategy);
        put_opt_u32(&mut out, "refresh", self.refresh);
        put_opt_u32(&mut out, "concurrency", self.concurrency);
        out
    }
}

impl ProtocolSettings {
    /// The protocol's name as the engine spells it.
    pub open spec fn name(&self) -> Seq<char> {
        match self {
            ProtocolSettings::Vless(_) => "vless"@,
            ProtocolSettings::Vmess(_) => "vmess"@,
            ProtocolSettings::Trojan(_) => "trojan"@,
            ProtocolSettings::Shadowsocks(_) => "shadowsocks"@,
        }
    }

    /// The JSON form of the settings of whichever protocol this is.
    pub open spec fn json(&self) -> Json {
        match self {
            ProtocolSettings::Vless(s) => s.json(),
            ProtocolSettings::Vmess(s) => s.json(),
            ProtocolSettings::Trojan(s) => s.json(),
            ProtocolSettings::Shadowsocks(s) => s.json(),
        }
    }

    /// Whether the settings may be handed to the engine: a Shadowsocks
    /// method is one of the supported ciphers, and every other protocol
    /// names at least one client.
    pub open spec fn well_formed(&self) -> bool {
        match self {
            ProtocolSettings::Vless(s) => s.clients@.len() > 0,
            ProtocolSettings::Vmess(s) => s.clients@.len() > 0,
            ProtocolSettings::Trojan(s) => s.clients@.len() > 0,
            ProtocolSettings::Shadowsocks(s) => is_shadowsocks_method(s.method@),
        }
    }

    /// The protocol's name as the engine spells it.
    pub fn protocol_name(&self) -> (name: &'static str)
        ensures
            name@ == self.name(),
    {
        match self {
            ProtocolSettings::Vless(_) => "vless",
            ProtocolSettings::Vmess(_) => "vmess",
            ProtocolSettings::Trojan(_) => "trojan",
            ProtocolSettings::Shadowsocks(_) => "shadowsocks",
        }
    }

    /// Builds the JSON form of the settings.
    pub fn to_json_value(&self) -> (v: Value)
        ensures
            json_model(v) == self.json(),
    {
        match self {
            ProtocolSettings::Vless(s) => s.to_json_value(),
            ProtocolSettings::Vmess(s) => s.to_json_value(),
            ProtocolSettings::Trojan(s) => s.to_json_value(),
            ProtocolSettings::Shadowsocks(s) => s.to_json_value(),
        }
    }

    /// Checks [`ProtocolSettings::well_formed`].
    pub fn is_well_formed(&self) -> (ok: bool)
        ensures
            ok == self.well_formed(),
    {
        match self {
            ProtocolSettings::Vless(s) => s.clients.len() > 0,
            ProtocolSettings::Vmess(s) => s.clients.len() > 0,
            ProtocolSettings::Trojan(s) => s.clients.len() > 0,
            ProtocolSettings::Shadowsocks(s) => is_valid_shadowsocks_method(s.method.as_str()),
        }
    }
}

} // verus!
