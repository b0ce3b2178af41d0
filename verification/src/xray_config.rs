//! The engine's configuration document and how it comes from the stored
//! endpoint records.
//!
//! The document is rebuilt whole each time: a control inbound on loopback,
//! one inbound for every enabled record in stored order, the two fixed
//! outbounds, one routing rule for control traffic, and the policy that turns
//! traffic accounting on.

use crate::fields::{
    json_list, json_opt, json_opt_str, json_opt_strings, json_strings, list_value, put, put_bool,
    put_number, put_opt, put_opt_json, put_opt_str, put_opt_strings, put_str, strings_value,
    ToJson,
};
use crate::inbound::{blob_json, opt_model, Inbound};
use crate::json::{clone_value, empty_object, json_model, Json};
use crate::text::opt_text;
use serde_json::Value;
use vstd::prelude::*;

verus! {

/// Port of the control inbound.
pub const CONTROL_PORT: u16 = 10085;

/// Where the engine writes its logs, and how much.
#[derive(Debug, Clone)]
pub struct LogConfig {
    pub loglevel: String,
    pub access: Option<String>,
    pub error: Option<String>,
}

/// The engine's own services and the tag they are reached under.
#[derive(Debug, Clone)]
pub struct ApiConfig {
    pub tag: String,
    pub services: Vec<String>,
}

/// One listener of the engine.
#[derive(Debug, Clone)]
pub struct InboundConfig {
    pub tag: String,
    pub port: u16,
    pub protocol: String,
    pub listen: Option<String>,
    pub settings: Option<Value>,
    pub stream_settings: Option<Value>,
    pub sniffing: Option<Value>,
    pub allocate: Option<Value>,
}

/// One exit of the engine.
#[derive(Debug, Clone)]
pub struct OutboundConfig {
    pub tag: String,
    pub protocol: String,
    pub settings: Option<Value>,
    pub stream_settings: Option<Value>,
}

/// One routing rule.
#[derive(Debug, Clone)]
pub struct RoutingRule {
    pub rule_type: String,
    pub port: Option<String>,
    pub inbound_tag: Option<Vec<String>>,
    pub outbound_tag: Option<String>,
    pub ip: Option<Vec<String>>,
    pub domain: Option<Vec<String>>,
    pub protocol: Option<Vec<String>>,
}

/// The routing table.
#[derive(Debug, Clone)]
pub struct RoutingConfig {
    pub domain_strategy: String,
    pub rules: Vec<RoutingRule>,
}

/// Policy of one user level.
#[derive(Debug, Clone, Copy)]
pub struct LevelPolicy {
    pub stats_user_uplink: bool,
    pub stats_user_downlink: bool,
    pub handshake: u32,
    pub conn_idle: u32,
    pub uplink_only: u32,
    pub downlink_only: u32,
    pub buffer_size: u32,
}

/// A user level with its policy.
#[derive(Debug, Clone)]
pub struct PolicyLevel {
    pub level: String,
    pub policy: LevelPolicy,
}

/// Policy of the engine as a whole.
#[derive(Debug, Clone, Copy)]
pub struct SystemPolicy {
    pub stats_inbound_uplink: bool,
    pub stats_inbound_downlink: bool,
    pub stats_outbound_uplink: bool,
    pub stats_outbound_downlink: bool,
}

/// The policy block. Levels are listed by name; in the JSON form they are
/// the members of one object.
#[derive(Debug, Clone)]
pub struct PolicyConfig {
    pub levels: Vec<PolicyLevel>,
    pub system: Option<SystemPolicy>,
}

/// Turns the statistics service on; it has no settings.
#[derive(Debug, Clone, Copy)]
pub struct StatsConfig {}

/// The whole configuration document.
#[derive(Debug, Clone)]
pub struct XrayConfig {
    pub log: LogConfig,
    pub api: ApiConfig,
    pub inbounds: Vec<InboundConfig>,
    pub outbounds: Vec<OutboundConfig>,
    pub routing: Option<RoutingConfig>,
    pub policy: Option<PolicyConfig>,
    pub stats: Option<StatsConfig>,
}

/// What an inbound block says, with its settings as JSON values.
pub struct InboundBlock {
    pub tag: Seq<char>,
    pub port: u16,
    pub protocol: Seq<char>,
    pub listen: Option<Seq<char>>,
    pub settings: Option<Json>,
    pub stream_settings: Option<Json>,
    pub sniffing: Option<Json>,
    pub allocate: Option<Json>,
}

impl View for InboundConfig {
    type V = InboundBlock;

    open spec fn view(&self) -> InboundBlock {
        InboundBlock {
            tag: self.tag@,
            port: self.port,
            protocol: self.protocol@,
            listen: opt_text(self.listen),
            settings: opt_model(self.settings),
            stream_settings: opt_model(self.stream_settings),
            sniffing: opt_model(self.sniffing),
            allocate: opt_model(self.allocate),
        }
    }
}

/// The control inbound: a loopback listener through which the engine's
/// statistics, handler and logger services are reached.
pub open spec fn control_block() -> InboundBlock {
    InboundBlock {
        tag: "api"@,
        port: CONTROL_PORT,
        protocol: "dokodemo-door"@,
        listen: Some("127.0.0.1"@),
        settings: Some(Json::empty_object().with("address"@, Json::Str("127.0.0.1"@))),
        stream_settings: None,
        sniffing: None,
        allocate: None,
    }
}

/// The inbound block of one record. Each stored text is decoded on its own;
/// one that is not JSON leaves its field out and the block is still made.
pub open spec fn record_block(record: Inbound) -> InboundBlock {
    InboundBlock {
        tag: record.tag_text(),
        port: record.port,
        protocol: record.protocol@,
        listen: opt_text(record.listen),
        settings: blob_json(record.settings),
        stream_settings: blob_json(record.stream_settings),
        sniffing: blob_json(record.sniffing),
        allocate: blob_json(record.allocate),
    }
}

/// The records that are enabled, in stored order.
pub open spec fn enabled_records(records: Seq<Inbound>) -> Seq<Inbound> {
    records.filter(|r: Inbound| r.enable)
}

/// The inbound blocks of a document: the control inbound, then one block
/// for each enabled record in stored order.
pub open spec fn document_blocks(records: Seq<Inbound>) -> Seq<InboundBlock> {
    seq![control_block()] + enabled_records(records).map_values(|r: Inbound| record_block(r))
}

/// What each inbound of a list says.
pub open spec fn blocks_of(inbounds: Seq<InboundConfig>) -> Seq<InboundBlock> {
    inbounds.map_values(|c: InboundConfig| c@)
}

/// The JSON form of an inbound block.
pub open spec fn block_json(b: InboundBlock) -> Json {
    Json::empty_object().with("tag"@, Json::Str(b.tag)).with(
        "port"@,
        Json::Int(b.port as int),
    ).with("protocol"@, Json::Str(b.protocol)).with_optional(
        "listen"@,
        match b.listen {
            Some(l) => Some(Json::Str(l)),
            None => None,
        },
    ).with_optional("settings"@, b.settings).with_optional(
        "streamSettings"@,
        b.stream_settings,
    ).with_optional("sniffing"@, b.sniffing).with_optional("allocate"@, b.allocate)
}

/// The JSON object whose members are the levels of a policy.
pub open spec fn levels_json(levels: Seq<PolicyLevel>) -> Json
    decreases levels.len(),
{
    if levels.len() == 0 {
        Json::empty_object()
    } else {
        levels_json(levels.drop_last()).with(levels.last().level@, levels.last().policy.json())
    }
}

impl ToJson for LogConfig {
    open spec fn json(&self) -> Json {
        Json::empty_object().with("loglevel"@, Json::Str(self.loglevel@)).with_optional(
            "access"@,
            json_opt_str(self.access),
        ).with_optional("error"@, json_opt_str(self.error))
    }

    fn to_json_value(&self) -> (v: Value) {
        let mut out = empty_object();
        put_str(&mut out, "loglevel", self.loglevel.as_str());
        put_opt_str(&mut out, "access", &self.access);
        put_opt_str(&mut out, "error", &self.error);
        out
    }
}

impl ToJson for ApiConfig {
    open spec fn json(&self) -> Json {
        Json::empty_object().with("tag"@, Json::Str(self.tag@)).with(
            "services"@,
            json_strings(self.services@),
        )
    }

    fn to_json_value(&self) -> (v: Value) {
        let mut out = empty_object();
        put_str(&mut out, "tag", self.tag.as_str());
        put(&mut out, "services", strings_value(&self.services));
        out
    }
}

/// A copy of an optional value.
fn clone_opt_value(v: &Option<Value>) -> (r: Option<Value>)
    ensures
        opt_model(r) == opt_model(*v),
{
    match v {
        Some(x) => Some(clone_value(x)),
        None => None,
    }
}

impl ToJson for InboundConfig {
    open spec fn json(&self) -> Json {
        block_json(self@)
    }

    fn to_json_value(&self) -> (v: Value) {
        let mut out = empty_object();
        put_str(&mut out, "tag", self.tag.as_str());
        put_number(&mut out, "port", self.port as u64);
        put_str(&mut out, "protocol", self.protocol.as_str());
        put_opt_str(&mut out, "listen", &self.listen);
        put_opt(&mut out, "settings", clone_opt_value(&self.settings));
        put_opt(&mut out, "streamSettings", clone_opt_value(&self.stream_settings));
        put_opt(&mut out, "sniffing", clone_opt_value(&self.sniffing));
        put_opt(&mut out, "allocate", clone_opt_value(&self.allocate));
        out
    }
}

impl ToJson for OutboundConfig {
    open spec fn json(&self) -> Json {
        Json::empty_object().with("tag"@, Json::Str(self.tag@)).with(
            "protocol"@,
            Json::Str(self.protocol@),
        ).with_optional("settings"@, opt_model(self.settings)).with_optional(
            "streamSettings"@,
            opt_model(self.stream_settings),
        )
    }

    fn to_json_value(&self) -> (v: Value) {
        let mut out = empty_object();
        put_str(&mut out, "tag", self.tag.as_str());
        put_str(&mut out, "protocol", self.protocol.as_str());
        put_opt(&mut out, "settings", clone_opt_value(&self.settings));
        put_opt(&mut out, "streamSettings", clone_opt_value(&self.stream_settings));
        out
    }
}

impl ToJson for RoutingRule {
    open spec fn json(&self) -> Json {
        Json::empty_object().with("type"@, Json::Str(self.rule_type@)).with_optional(
            "port"@,
            json_opt_str(self.port),
        ).with_optional("inboundTag"@, json_opt_strings(self.inbound_tag)).with_optional(
            "outboundTag"@,
            json_opt_str(self.outbound_tag),
        ).with_optional("ip"@, json_opt_strings(self.ip)).with_optional(
            "domain"@,
            json_opt_strings(self.domain),
        ).with_optional("protocol"@, json_opt_strings(self.protocol))
    }

    fn to_json_value(&self) -> (v: Value) {
        let mut out = empty_object();
        put_str(&mut out, "type", self.rule_type.as_str());
        put_opt_str(&mut out, "port", &self.port);
        put_opt_strings(&mut out, "inboundTag", &self.inbound_tag);
        put_opt_str(&mut out, "outboundTag", &self.outbound_tag);
        put_opt_strings(&mut out, "ip", &self.ip);
        put_opt_strings(&mut out, "domain", &self.domain);
        put_opt_strings(&mut out, "protocol", &self.protocol);
        out
    }
}

impl ToJson for RoutingConfig {
    open spec fn json(&self) -> Json {
        Json::empty_object().with("domainStrategy"@, Json::Str(self.domain_strategy@)).with(
            "rules"@,
            json_list(self.rules@),
        )
    }

    fn to_json_value(&self) -> (v: Value) {
        let mut out = empty_object();
        put_str(&mut out, "domainStrategy", self.domain_strategy.as_str());
        put(&mut out, "rules", list_value(&self.rules));
        out
    }
}

impl ToJson for LevelPolicy {
    open spec fn json(&self) -> Json {
        Json::empty_object().with("statsUserUplink"@, Json::Bool(self.stats_user_uplink)).with(
            "statsUserDownlink"@,
            Json::Bool(self.stats_user_downlink),
        ).with("handshake"@, Json::Int(self.handshake as int)).with(
            "connIdle"@,
            Json::Int(self.conn_idle as int),
        ).with("uplinkOnly"@, Json::Int(self.uplink_only as int)).with(
            "downlinkOnly"@,
            Json::Int(self.downlink_only as int),
        ).with("bufferSize"@, Json::Int(self.buffer_size as int))
    }

    fn to_json_value(&self) -> (v: Value) {
        let mut out = empty_object();
        put_bool(&mut out, "statsUserUplink", self.stats_user_uplink);
        put_bool(&mut out, "statsUserDownlink", self.stats_user_downlink);
        put_number(&mut out, "handshake", self.handshake as u64);
        put_number(&mut out, "connIdle", self.conn_idle as u64);
        put_number(&mut out, "uplinkOnly", self.uplink_only as u64);
        put_number(&mut out, "downlinkOnly", self.downlink_only as u64);
        put_number(&mut out, "bufferSize", self.buffer_size as u64);
        out
    }
}

impl ToJson for SystemPolicy {
    open spec fn json(&self) -> Json {
        Json::empty_object().with(
            "statsInboundUplink"@,
            Json::Bool(self.stats_inbound_uplink),
        ).with("statsInboundDownlink"@, Json::Bool(self.stats_inbound_downlink)).with(
            "statsOutboundUplink"@,
            Json::Bool(self.stats_outbound_uplink),
        ).with("statsOutboundDownlink"@, Json::Bool(self.stats_outbound_downlink))
    }

    fn to_json_value(&self) -> (v: Value) {
        let mut out = empty_object();
        put_bool(&mut out, "statsInboundUplink", self.stats_inbound_uplink);
        put_bool(&mut out, "statsInboundDownlink", self.stats_inbound_downlink);
        put_bool(&mut out, "statsOutboundUplink", self.stats_outbound_uplink);
        put_bool(&mut out, "statsOutboundDownlink", self.stats_outbound_downlink);
        out
    }
}

impl ToJson for PolicyConfig {
    open spec fn json(&self) -> Json {
        Json::empty_object().with("levels"@, levels_json(self.levels@)).with_optional(
            "system"@,
            json_opt(self.system),
        )
    }

    fn to_json_value(&self) -> (v: Value) {
        let mut levels = empty_object();
        let mut i: usize = 0;
        while i < self.levels.len()
            invariant
                i <= self.levels@.len(),
                json_model(levels) == levels_json(self.levels@.subrange(0, i as int)),
            decreases self.levels@.len() - i,
        {
            assert(self.levels@.subrange(0, i + 1).drop_last() =~= self.levels@.subrange(
                0,
                i as int,
            ));
            put(&mut levels, self.levels[i].level.as_str(), self.levels[i].policy.to_json_value());
            i += 1;
        }
        assert(self.levels@.subrange(0, i as int) =~= self.levels@);
        let mut out = empty_object();
        put(&mut out, "levels", levels);
        put_opt_json(&mut out, "system", &self.system);
        out
    }
}

impl ToJson for StatsConfig {
    open spec fn json(&self) -> Json {
        Json::empty_object()
    }

    fn to_json_value(&self) -> (v: Value) {
        empty_object()
    }
}

impl ToJson for XrayConfig {
    open spec fn json(&self) -> Json {
        Json::empty_object().with("log"@, self.log.json()).with("api"@, self.api.json()).with(
            "inbounds"@,
            json_list(self.inbounds@),
        ).with("outbounds"@, json_list(self.outbounds@)).with_optional(
            "routing"@,
            json_opt(self.routing),
        ).with_optional("policy"@, json_opt(self.policy)).with_optional(
            "stats"@,
            json_opt(self.stats),
        )
    }

    fn to_json_value(&self) -> (v: Value) {
        let mut out = empty_object();
        put(&mut out, "log", self.log.to_json_value());
        put(&mut out, "api", self.api.to_json_value());
        put(&mut out, "inbounds", list_value(&self.inbounds));
        put(&mut out, "outbounds", list_value(&self.outbounds));
        put_opt_json(&mut out, "routing", &self.routing);
        put_opt_json(&mut out, "policy", &self.policy);
        put_opt_json(&mut out, "stats", &self.stats);
        out
    }
}

} // verus!
