//! Building the configuration document from the stored records and turning
//! it into the text that is written for the engine.

use crate::errors::{outcome_view, ApiError, ApiErrorView};
use crate::fields::{json_strings, put_str, ToJson};
use crate::inbound::{decode_blob, Inbound};
use crate::json::{empty_object, error_text, json_model, pretty_text, render_pretty, Json};
use crate::text::clone_opt;
use crate::xray_config::{
    block_json, blocks_of, control_block, document_blocks, enabled_records, levels_json,
    record_block, ApiConfig, InboundBlock, InboundConfig, LevelPolicy, LogConfig, OutboundConfig,
    PolicyConfig, PolicyLevel, RoutingConfig, RoutingRule, StatsConfig, SystemPolicy, XrayConfig,
    CONTROL_PORT,
};
use serde_json::Value;
use vstd::prelude::*;

verus! {

/// The characters of each string of a list.
pub open spec fn texts(items: Seq<String>) -> Seq<Seq<char>> {
    items.map_values(|s: String| s@)
}

/// The names of the engine's services that the document switches on.
pub open spec fn service_names() -> Seq<Seq<char>> {
    seq!["HandlerService"@, "LoggerService"@, "StatsService"@]
}

/// The policy of level `0`: per-user traffic accounting in both directions
/// and the fixed timeouts.
pub open spec fn level_zero() -> LevelPolicy {
    LevelPolicy {
        stats_user_uplink: true,
        stats_user_downlink: true,
        handshake: 4,
        conn_idle: 300,
        uplink_only: 2,
        downlink_only: 5,
        buffer_size: 512,
    }
}

/// The system policy: traffic accounting on every inbound and outbound.
pub open spec fn system_policy() -> SystemPolicy {
    SystemPolicy {
        stats_inbound_uplink: true,
        stats_inbound_downlink: true,
        stats_outbound_uplink: true,
        stats_outbound_downlink: true,
    }
}

/// Whether `o` is the outbound `tag` of protocol `protocol` without settings.
pub open spec fn plain_outbound(o: OutboundConfig, tag: Seq<char>, protocol: Seq<char>) -> bool {
    &&& o.tag@ == tag
    &&& o.protocol@ == protocol
    &&& o.settings is None
    &&& o.stream_settings is None
}

/// Whether `rule` sends what arrives at the control inbound to the engine's
/// own services and says nothing else.
pub open spec fn control_rule(rule: RoutingRule) -> bool {
    &&& rule.rule_type@ == "field"@
    &&& rule.inbound_tag matches Some(tags) && texts(tags@) == seq!["api"@]
    &&& rule.outbound_tag matches Some(tag) && tag@ == "api"@
    &&& rule.port is None
    &&& rule.ip is None
    &&& rule.domain is None
    &&& rule.protocol is None
}

/// Whether everything in `config` but its inbounds is as every document has
/// it: error-level logging to the two log files, the three services under
/// the tag `api`, the outbounds `direct` and `blocked`, the one routing rule
/// for control traffic under the `IPIfNonMatch` strategy, the policy of
/// level `0` with the system policy, and statistics switched on.
pub open spec fn fixed_frame(config: XrayConfig, access_log: Seq<char>, error_log: Seq<char>) -> bool {
    &&& config.log.loglevel@ == "error"@
    &&& config.log.access matches Some(a) && a@ == access_log
    &&& config.log.error matches Some(e) && e@ == error_log
    &&& config.api.tag@ == "api"@
    &&& texts(config.api.services@) == service_names()
    &&& config.outbounds@.len() == 2
    &&& plain_outbound(config.outbounds@[0], "direct"@, "freedom"@)
    &&& plain_outbound(config.outbounds@[1], "blocked"@, "blackhole"@)
    &&& config.routing matches Some(routing) && {
        &&& routing.domain_strategy@ == "IPIfNonMatch"@
        &&& routing.rules@.len() == 1
        &&& control_rule(routing.rules@[0])
    }
    &&& config.policy matches Some(policy) && {
        &&& policy.levels@.len() == 1
        &&& policy.levels@[0].level@ == "0"@
        &&& policy.levels@[0].policy == level_zero()
        &&& policy.system == Some(system_policy())
    }
    &&& config.stats is Some
}

/// The JSON form of an outbound that has a tag and a protocol only.
pub open spec fn outbound_json(tag: Seq<char>, protocol: Seq<char>) -> Json {
    Json::empty_object().with("tag"@, Json::Str(tag)).with("protocol"@, Json::Str(protocol))
}

/// The JSON strings for a list of texts.
pub open spec fn text_array(items: Seq<Seq<char>>) -> Json {
    Json::Array(items.map_values(|s: Seq<char>| Json::Str(s)))
}

/// The configuration document for the stored records, as a JSON value: the
/// members `log`, `api`, `inbounds`, `outbounds`, `routing`, `policy` and
/// `stats`. It depends on nothing but the records and the two log paths.
pub open spec fn document_json(
    records: Seq<Inbound>,
    access_log: Seq<char>,
    error_log: Seq<char>,
) -> Json {
    Json::empty_object().with(
        "log"@,
        Json::empty_object().with("loglevel"@, Json::Str("error"@)).with(
            "access"@,
            Json::Str(access_log),
        ).with("error"@, Json::Str(error_log)),
    ).with(
        "api"@,
        Json::empty_object().with("tag"@, Json::Str("api"@)).with(
            "services"@,
            text_array(service_names()),
        ),
    ).with(
        "inbounds"@,
        Json::Array(document_blocks(records).map_values(|b: InboundBlock| block_json(b))),
    ).with(
        "outbounds"@,
        Json::Array(
            seq![outbound_json("direct"@, "freedom"@), outbound_json("blocked"@, "blackhole"@)],
        ),
    ).with(
        "routing"@,
        Json::empty_object().with("domainStrategy"@, Json::Str("IPIfNonMatch"@)).with(
            "rules"@,
            Json::Array(
                seq![
                    Json::empty_object().with("type"@, Json::Str("field"@)).with(
                        "inboundTag"@,
                        text_array(seq!["api"@]),
                    ).with("outboundTag"@, Json::Str("api"@)),
                ],
            ),
        ),
    ).with(
        "policy"@,
        Json::empty_object().with(
            "levels"@,
            Json::empty_object().with("0"@, level_zero().json()),
        ).with("system"@, system_policy().json()),
    ).with("stats"@, Json::empty_object())
}

/// The JSON array of strings for a list is the array of its texts.
pub proof fn lemma_strings_json(items: Seq<String>)
    ensures
        json_strings(items) == text_array(texts(items)),
{
    assert(items.map_values(|s: String| Json::Str(s@)) =~= texts(items).map_values(
        |s: Seq<char>| Json::Str(s),
    ));
}

/// Every configuration that holds the inbound blocks of the records and the
/// fixed frame has the document of the records as its JSON form.
pub proof fn lemma_config_json(
    config: XrayConfig,
    records: Seq<Inbound>,
    access_log: Seq<char>,
    error_log: Seq<char>,
)
    requires
        blocks_of(config.inbounds@) == document_blocks(records),
        fixed_frame(config, access_log, error_log),
    ensures
        config.json() == document_json(records, access_log, error_log),
{
    lemma_strings_json(config.api.services@);
    assert(config.api.json() == Json::empty_object().with("tag"@, Json::Str("api"@)).with(
        "services"@,
        text_array(service_names()),
    ));
    assert(config.inbounds@.map_values(|x: InboundConfig| x.json()) =~= document_blocks(
        records,
    ).map_values(|b: InboundBlock| block_json(b))) by {
        assert forall|i: int| 0 <= i < config.inbounds@.len() implies config.inbounds@[i].json()
            == block_json(document_blocks(records)[i]) by {
            assert(blocks_of(config.inbounds@)[i] == config.inbounds@[i]@);
        }
    }
    assert(config.outbounds@.map_values(|x: OutboundConfig| x.json()) =~= seq![
        outbound_json("direct"@, "freedom"@),
        outbound_json("blocked"@, "blackhole"@),
    ]);
    let routing = config.routing->0;
    let rule = routing.rules@[0];
    lemma_strings_json(rule.inbound_tag->0@);
    assert(routing.rules@.map_values(|x: RoutingRule| x.json()) =~= seq![
        Json::empty_object().with("type"@, Json::Str("field"@)).with(
            "inboundTag"@,
            text_array(seq!["api"@]),
        ).with("outboundTag"@, Json::Str("api"@)),
    ]);
    let policy = config.policy->0;
    assert(policy.levels@.drop_last() =~= Seq::<PolicyLevel>::empty());
    assert(levels_json(policy.levels@) == Json::empty_object().with("0"@, level_zero().json())) by {
        reveal_with_fuel(levels_json, 2);
    }
}

/// What the caller of a rendering gets for each outcome of the serializer:
/// the text, or an internal error that quotes the serializer's words.
pub open spec fn rendering_outcome(serialized: Result<Seq<char>, Seq<char>>) -> Result<
    Seq<char>,
    ApiErrorView,
> {
    match serialized {
        Ok(text) => Ok(text),
        Err(words) => Err(ApiErrorView::InternalError("Failed to serialize config: "@ + words)),
    }
}

/// The characters of a serializer outcome.
pub open spec fn serialized_view(r: Result<String, String>) -> Result<Seq<char>, Seq<char>> {
    match r {
        Ok(s) => Ok(s@),
        Err(e) => Err(e@),
    }
}

/// Turns the outcome of the serializer into the result of a rendering.
pub fn rendering_result(serialized: Result<String, String>) -> (r: Result<String, ApiError>)
    ensures
        outcome_view(r) == rendering_outcome(serialized_view(serialized)),
{
    match serialized {
        Ok(text) => Ok(text),
        Err(words) => Err(ApiError::internal("Failed to serialize config: ", words.as_str())),
    }
}

/// The text of a JSON value as the engine's configuration file holds it:
/// the pretty form of the value. Rendering a value always succeeds; the
/// result type leaves room for the serializer's error all the same.
pub fn render_value(doc: &Value) -> (r: Result<String, ApiError>)
    ensures
        r matches Ok(text) && text@ == pretty_text(json_model(*doc)),
{
    let serialized = match render_pretty(doc) {
        Ok(text) => Ok(text),
        Err(e) => Err(error_text(&e)),
    };
    rendering_result(serialized)
}

/// Builds the configuration document for the stored records as a JSON value.
pub fn build_document(records: &Vec<Inbound>, access_log: &str, error_log: &str) -> (doc: Value)
    ensures
        json_model(doc) == document_json(records@, access_log@, error_log@),
{
    let config = build_config(records, access_log, error_log);
    proof {
        lemma_config_json(config, records@, access_log@, error_log@);
    }
    config.to_json_value()
}

/// Builds the configuration document for the stored records and renders it
/// as the text of the configuration file. It always succeeds, and the text
/// depends on the records and the log paths alone.
pub fn render_config(records: &Vec<Inbound>, access_log: &str, error_log: &str) -> (r: Result<
    String,
    ApiError,
>)
    ensures
        r matches Ok(text) && text@ == pretty_text(
            document_json(records@, access_log@, error_log@),
        ),
{
    let doc = build_document(records, access_log, error_log);
    render_value(&doc)
}

/// Two runs on the same enabled records in the same order, with the same
/// log paths, give the same document, whatever else the record lists hold
/// and whatever the disabled records among them are.
pub proof fn lemma_document_determined(
    first: Seq<Inbound>,
    second: Seq<Inbound>,
    access_log: Seq<char>,
    error_log: Seq<char>,
)
    requires
        enabled_records(first).map_values(|r: Inbound| record_block(r)) == enabled_records(
            second,
        ).map_values(|r: Inbound| record_block(r)),
    ensures
        document_json(first, access_log, error_log) == document_json(
            second,
            access_log,
            error_log,
        ),
        pretty_text(document_json(first, access_log, error_log)) == pretty_text(
            document_json(second, access_log, error_log),
        ),
{
}

/// The control inbound.
pub fn control_inbound() -> (inbound: InboundConfig)
    ensures
        inbound@ == control_block(),
{
    let mut settings = empty_object();
    put_str(&mut settings, "address", "127.0.0.1");
    InboundConfig {
        tag: "api".to_owned(),
        port: CONTROL_PORT,
        protocol: "dokodemo-door".to_owned(),
        listen: Some("127.0.0.1".to_owned()),
        settings: Some(settings),
        stream_settings: None,
        sniffing: None,
        allocate: None,
    }
}

/// The inbound of one record. A stored text that is not JSON leaves its
/// field out; the inbound is made all the same.
pub fn record_inbound(record: &Inbound) -> (inbound: InboundConfig)
    ensures
        inbound@ == record_block(*record),
{
    InboundConfig {
        tag: record.resolved_tag(),
        port: record.port,
        protocol: record.protocol.clone(),
        listen: clone_opt(&record.listen),
        settings: decode_blob(&record.settings),
        stream_settings: decode_blob(&record.stream_settings),
        sniffing: decode_blob(&record.sniffing),
        allocate: decode_blob(&record.allocate),
    }
}

/// Builds the configuration document for the stored records. Records that
/// are not enabled are passed over; the others keep their stored order.
pub fn build_config(records: &Vec<Inbound>, access_log: &str, error_log: &str) -> (config:
    XrayConfig)
    ensures
        blocks_of(config.inbounds@) == document_blocks(records@),
        config.inbounds@.len() == enabled_records(records@).len() + 1,
        fixed_frame(config, access_log@, error_log@),
{
    let mut inbounds: Vec<InboundConfig> = Vec::new();
    inbounds.push(control_inbound());
    assert(blocks_of(inbounds@) =~= document_blocks(records@.subrange(0, 0))) by {
        reveal(Seq::filter);
    }
    let mut i: usize = 0;
    while i < records.len()
        invariant
            i <= records@.len(),
            blocks_of(inbounds@) == document_blocks(records@.subrange(0, i as int)),
            inbounds@.len() == enabled_records(records@.subrange(0, i as int)).len() + 1,
        decreases records@.len() - i,
    {
        proof {
            let done = records@.subrange(0, i as int);
            assert(records@.subrange(0, i + 1) =~= done.push(records@[i as int]));
            done.lemma_filter_push(records@[i as int], |r: Inbound| r.enable);
        }
        if records[i].enable {
            let ghost before = inbounds@;
            let ghost done = enabled_records(records@.subrange(0, i as int));
            inbounds.push(record_inbound(&records[i]));
            proof {
                let record = records@[i as int];
                assert(enabled_records(records@.subrange(0, i + 1)) == done.push(record));
                assert(done.push(record).map_values(|r: Inbound| record_block(r)) =~= done.map_values(
                    |r: Inbound| record_block(r),
                ).push(record_block(record)));
                assert(blocks_of(inbounds@) =~= blocks_of(before).push(record_block(record)));
                assert(blocks_of(inbounds@) =~= document_blocks(records@.subrange(0, i + 1)));
            }
        }
        i += 1;
    }
    assert(records@.subrange(0, i as int) =~= records@);

    let mut services: Vec<String> = Vec::new();
    services.push("HandlerService".to_owned());
    services.push("LoggerService".to_owned());
    services.push("StatsService".to_owned());
    assert(texts(services@) =~= service_names());

    let mut outbounds: Vec<OutboundConfig> = Vec::new();
    outbounds.push(
        OutboundConfig {
            tag: "direct".to_owned(),
            protocol: "freedom".to_owned(),
            settings: None,
            stream_settings: None,
        },
    );
    outbounds.push(
        OutboundConfig {
            tag: "blocked".to_owned(),
            protocol: "blackhole".to_owned(),
            settings: None,
            stream_settings: None,
        },
    );

    let mut control_tags: Vec<String> = Vec::new();
    control_tags.push("api".to_owned());
    assert(texts(control_tags@) =~= seq!["api"@]);
    let mut rules: Vec<RoutingRule> = Vec::new();
    rules.push(
        RoutingRule {
            rule_type: "field".to_owned(),
            port: None,
            inbound_tag: Some(control_tags),
            outbound_tag: Some("api".to_owned()),
            ip: None,
            domain: None,
            protocol: None,
        },
    );

    let mut levels: Vec<PolicyLevel> = Vec::new();
    levels.push(
        PolicyLevel {
            level: "0".to_owned(),
            policy: LevelPolicy {
                stats_user_uplink: true,
                stats_user_downlink: true,
                handshake: 4,
                conn_idle: 300,
                uplink_only: 2,
                downlink_only: 5,
                buffer_size: 512,
            },
        },
    );

    XrayConfig {
        log: LogConfig {
            loglevel: "error".to_owned(),
            access: Some(access_log.to_owned()),
            error: Some(error_log.to_owned()),
        },
        api: ApiConfig { tag: "api".to_owned(), services },
        inbounds,
        outbounds,
        routing: Some(RoutingConfig { domain_strategy: "IPIfNonMatch".to_owned(), rules }),
        policy: Some(
            PolicyConfig {
                levels,
                system: Some(
                    SystemPolicy {
                        stats_inbound_uplink: true,
                        stats_inbound_downlink: true,
                        stats_outbound_uplink: true,
                        stats_outbound_downlink: true,
                    },
                ),
            },
        ),
        stats: Some(StatsConfig {  }),
    }
}

} // verus!
