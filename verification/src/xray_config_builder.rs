//! Building and checking the settings of an inbound before they reach the
//! engine.

use crate::fields::{
    json_list, json_opt, json_opt_list, json_opt_str, list_value, put, put_number, put_opt,
    put_opt_json, put_opt_list, put_opt_str, put_str, strings_value,
};
use crate::inbound::{blob_json, decode_blob, opt_model, Inbound};
use crate::inspect::{has_content, is_object, is_present, object_keys};
use crate::json::{
    as_bool, as_str, assign_member, bool_value, clone_value, empty_object, get, is_null,
    json_model, Json,
};
use crate::xray_service::{lemma_strings_json, text_array, texts};
use crate::protocol_settings::{
    is_shadowsocks_method, is_valid_shadowsocks_method, Fallback, ShadowsocksClient,
    TrojanClient, VlessClient, VmessClient,
};
use crate::stream_settings::{
    GrpcSettings, HttpSettings, RealitySettings, Sockopt, TcpSettings, TlsSettings, WsSettings,
};
use crate::text::{concat, opt_text, str_eq};
use serde_json::Value;
use vstd::prelude::*;

verus! {

/// The verdict on the settings of a protocol: `Ok`, or the message that
/// says what is wrong.
///
/// VLESS, VMess and Trojan need `clients`, and it must not be blank: a
/// client list without clients is as good as none. Shadowsocks needs
/// `method` to be a string, and the string to name a supported cipher. Any
/// other protocol passes.
pub open spec fn protocol_verdict(protocol: Seq<char>, settings: Json) -> Result<(), Seq<char>> {
    if protocol == "vless"@ {
        if settings.has_content("clients"@) {
            Ok(())
        } else {
            Err("VLESS 协议必须包含 clients 配置"@)
        }
    } else if protocol == "vmess"@ {
        if settings.has_content("clients"@) {
            Ok(())
        } else {
            Err("VMess 协议必须包含 clients 配置"@)
        }
    } else if protocol == "trojan"@ {
        if settings.has_content("clients"@) {
            Ok(())
        } else {
            Err("Trojan 协议必须包含 clients 配置"@)
        }
    } else if protocol == "shadowsocks"@ {
        match settings.member("method"@) {
            Some(Json::Str(method)) => if is_shadowsocks_method(method) {
                Ok(())
            } else {
                Err("不支持的 Shadowsocks 加密方法: "@ + method)
            },
            _ => Err("Shadowsocks 协议必须包含 method 配置"@),
        }
    } else {
        Ok(())
    }
}

/// The verdict on Reality settings: each of `dest`, `serverNames`,
/// `privateKey` and `shortIds` must be there and must not be blank. The
/// first that fails, in this order, gives the message.
pub open spec fn reality_verdict(reality: Json) -> Result<(), Seq<char>> {
    if !reality.has_content("dest"@) {
        Err("Reality 配置必须包含 dest 字段"@)
    } else if !reality.has_content("serverNames"@) {
        Err("Reality 配置必须包含 serverNames 字段"@)
    } else if !reality.has_content("privateKey"@) {
        Err("Reality 配置必须包含 privateKey 字段"@)
    } else if !reality.has_content("shortIds"@) {
        Err("Reality 配置必须包含 shortIds 字段"@)
    } else {
        Ok(())
    }
}

/// The verdict on stream settings: `Ok`, or the message that says what is
/// wrong.
///
/// Without `security` there is nothing to check. `none` passes. `tls`
/// needs `tlsSettings`; `reality` needs `realitySettings` and a good
/// verdict on them. Any other value is refused, `null` and every other
/// value that is no string among them.
pub open spec fn stream_verdict(stream: Json) -> Result<(), Seq<char>> {
    match stream.member("security"@) {
        None => Ok(()),
        Some(Json::Str(mode)) => if mode == "tls"@ {
            if stream.present("tlsSettings"@) {
                Ok(())
            } else {
                Err("启用 TLS 时必须提供 tlsSettings 配置"@)
            }
        } else if mode == "reality"@ {
            match stream.member("realitySettings"@) {
                Some(reality) => if reality is Null {
                    Err("启用 Reality 时必须提供 realitySettings 配置"@)
                } else {
                    reality_verdict(reality)
                },
                None => Err("启用 Reality 时必须提供 realitySettings 配置"@),
            }
        } else if mode == "none"@ {
            Ok(())
        } else {
            Err("不支持的 security 类型: "@ + mode)
        },
        Some(_) => Err("security 必须是字符串"@),
    }
}

/// The settings that a protocol has where the user gives none: VLESS
/// decrypts nothing, Shadowsocks listens on TCP and UDP, and the other
/// protocols have no defaults.
pub open spec fn default_settings(protocol: Seq<char>) -> Json {
    if protocol == "vless"@ {
        Json::empty_object().with("decryption"@, Json::Str("none"@))
    } else if protocol == "shadowsocks"@ {
        Json::empty_object().with("network"@, Json::Str("tcp,udp"@))
    } else {
        Json::empty_object()
    }
}

/// User settings with the defaults filled in. Where the user gives no
/// settings, the defaults stand. Where the user gives an object, every key
/// of the user stays as it is and every other key of the defaults is added;
/// the merge does not look inside the values. Anything else the user gives
/// is left alone.
pub open spec fn merged(defaults: Json, user: Option<Json>) -> Json {
    match user {
        None => defaults,
        Some(Json::Object(m)) => Json::Object(defaults.members().union_prefer_right(m)),
        Some(other) => other,
    }
}

/// The settings of a protocol with its defaults filled in.
pub open spec fn merged_settings(protocol: Seq<char>, user: Option<Json>) -> Json {
    merged(default_settings(protocol), user)
}

/// Whether `key` is one of the first `count` of `keys`.
pub open spec fn listed(keys: Seq<String>, count: int, key: Seq<char>) -> bool {
    exists|j: int| 0 <= j < count && #[trigger] keys[j]@ == key
}

/// The protocols whose destination the engine takes from sniffed traffic
/// where an endpoint only says that it wants sniffing.
pub open spec fn sniffed_protocols() -> Seq<Seq<char>> {
    seq!["http"@, "tls"@, "quic"@, "fakedns"@]
}

/// Sniffing settings in full: a bare `true` or `false` stands for sniffing
/// switched on or off with the usual destination overrides.
pub open spec fn expanded_sniffing(sniffing: Json) -> Json {
    match sniffing {
        Json::Bool(enabled) => Json::empty_object().with("enabled"@, Json::Bool(enabled)).with(
            "destOverride"@,
            text_array(sniffed_protocols()),
        ),
        other => other,
    }
}

/// The sniffing member of an inbound.
pub open spec fn sniffing_member(sniffing: Option<Json>) -> Option<Json> {
    match sniffing {
        Some(s) => Some(expanded_sniffing(s)),
        None => None,
    }
}

/// The listen member of an inbound: the address, unless it is empty.
pub open spec fn listen_member(listen: Option<Seq<char>>) -> Option<Json> {
    match listen {
        Some(address) => if address.len() > 0 {
            Some(Json::Str(address))
        } else {
            None
        },
        None => None,
    }
}

/// An inbound of the engine, from its parts. The members `tag`, `port` and
/// `protocol` are always there; each of the others only where it is given.
pub open spec fn inbound_entry(
    tag: Seq<char>,
    port: u16,
    protocol: Seq<char>,
    listen: Option<Seq<char>>,
    allocate: Option<Json>,
    settings: Option<Json>,
    stream_settings: Option<Json>,
    sniffing: Option<Json>,
) -> Json {
    Json::empty_object().with("tag"@, Json::Str(tag)).with("port"@, Json::Int(port as int)).with(
        "protocol"@,
        Json::Str(protocol),
    ).with_optional("listen"@, listen_member(listen)).with_optional(
        "allocate"@,
        allocate,
    ).with_optional("settings"@, settings).with_optional(
        "streamSettings"@,
        stream_settings,
    ).with_optional("sniffing"@, sniffing_member(sniffing))
}

/// The inbound of a record. A stored text that is not JSON leaves its
/// member out.
pub open spec fn inbound_json(record: Inbound) -> Json {
    inbound_entry(
        record.tag_text(),
        record.port,
        record.protocol@,
        opt_text(record.listen),
        blob_json(record.allocate),
        blob_json(record.settings),
        blob_json(record.stream_settings),
        blob_json(record.sniffing),
    )
}

/// VLESS settings: the clients, the decryption mode (`none` where none is
/// given) and the fallbacks where there are any.
pub open spec fn vless_settings_json(
    clients: Seq<VlessClient>,
    decryption: Option<String>,
    fallbacks: Option<Vec<Fallback>>,
) -> Json {
    Json::empty_object().with("clients"@, json_list(clients)).with(
        "decryption"@,
        Json::Str(
            match decryption {
                Some(d) => d@,
                None => "none"@,
            },
        ),
    ).with_optional("fallbacks"@, json_opt_list(fallbacks))
}

/// VMess settings: the clients.
pub open spec fn vmess_settings_json(clients: Seq<VmessClient>) -> Json {
    Json::empty_object().with("clients"@, json_list(clients))
}

/// Trojan settings: the clients, and the fallbacks where there are any.
pub open spec fn trojan_settings_json(
    clients: Seq<TrojanClient>,
    fallbacks: Option<Vec<Fallback>>,
) -> Json {
    Json::empty_object().with("clients"@, json_list(clients)).with_optional(
        "fallbacks"@,
        json_opt_list(fallbacks),
    )
}

/// Shadowsocks settings: the method, the password where there is one, the
/// network mode (`tcp,udp` where none is given) and the clients where there
/// are any.
pub open spec fn shadowsocks_settings_json(
    method: Seq<char>,
    password: Option<String>,
    network: Option<String>,
    clients: Option<Vec<ShadowsocksClient>>,
) -> Json {
    Json::empty_object().with("method"@, Json::Str(method)).with_optional(
        "password"@,
        json_opt_str(password),
    ).with(
        "network"@,
        Json::Str(
            match network {
                Some(n) => n@,
                None => "tcp,udp"@,
            },
        ),
    ).with_optional("clients"@, json_opt_list(clients))
}

/// Stream settings: each part that is given, under its own key.
pub open spec fn stream_settings_json(
    network: Option<String>,
    security: Option<String>,
    tcp_settings: Option<TcpSettings>,
    ws_settings: Option<WsSettings>,
    http_settings: Option<HttpSettings>,
    grpc_settings: Option<GrpcSettings>,
    tls_settings: Option<TlsSettings>,
    reality_settings: Option<RealitySettings>,
    sockopt: Option<Sockopt>,
) -> Json {
    Json::empty_object().with_optional("network"@, json_opt_str(network)).with_optional(
        "security"@,
        json_opt_str(security),
    ).with_optional("tcpSettings"@, json_opt(tcp_settings)).with_optional(
        "wsSettings"@,
        json_opt(ws_settings),
    ).with_optional("httpSettings"@, json_opt(http_settings)).with_optional(
        "grpcSettings"@,
        json_opt(grpc_settings),
    ).with_optional("tlsSettings"@, json_opt(tls_settings)).with_optional(
        "realitySettings"@,
        json_opt(reality_settings),
    ).with_optional("sockopt"@, json_opt(sockopt))
}

/// The characters of a verdict's message.
pub open spec fn verdict_view(r: Result<(), String>) -> Result<(), Seq<char>> {
    match r {
        Ok(()) => Ok(()),
        Err(m) => Err(m@),
    }
}

/// Sniffing settings in full.
pub fn expand_sniffing(sniffing: Value) -> (full: Value)
    ensures
        json_model(full) == expanded_sniffing(json_model(sniffing)),
{
    match as_bool(&sniffing) {
        Some(enabled) => {
            let mut protocols: Vec<String> = Vec::new();
            protocols.push("http".to_owned());
            protocols.push("tls".to_owned());
            protocols.push("quic".to_owned());
            protocols.push("fakedns".to_owned());
            proof {
                assert(texts(protocols@) =~= sniffed_protocols());
                lemma_strings_json(protocols@);
            }
            let mut full = empty_object();
            put(&mut full, "enabled", bool_value(enabled));
            put(&mut full, "destOverride", strings_value(&protocols));
            full
        },
        None => sniffing,
    }
}

/// Puts an inbound of the engine together from its parts.
pub fn assemble_inbound(
    tag: &str,
    port: u16,
    protocol: &str,
    listen: &Option<String>,
    allocate: Option<Value>,
    settings: Option<Value>,
    stream_settings: Option<Value>,
    sniffing: Option<Value>,
) -> (entry: Value)
    ensures
        json_model(entry) == inbound_entry(
            tag@,
            port,
            protocol@,
            opt_text(*listen),
            opt_model(allocate),
            opt_model(settings),
            opt_model(stream_settings),
            opt_model(sniffing),
        ),
{
    let mut entry = empty_object();
    put_str(&mut entry, "tag", tag);
    put_number(&mut entry, "port", port as u64);
    put_str(&mut entry, "protocol", protocol);
    match listen {
        Some(address) => {
            if !address.as_str().is_empty() {
                put_str(&mut entry, "listen", address.as_str());
            }
        },
        None => {},
    }
    put_opt(&mut entry, "allocate", allocate);
    put_opt(&mut entry, "settings", settings);
    put_opt(&mut entry, "streamSettings", stream_settings);
    let sniffing = match sniffing {
        Some(s) => Some(expand_sniffing(s)),
        None => None,
    };
    put_opt(&mut entry, "sniffing", sniffing);
    entry
}

/// Builds the inbound of a record for the engine.
pub fn build_xray_inbound(inbound: &Inbound) -> (entry: Value)
    ensures
        json_model(entry) == inbound_json(*inbound),
{
    let tag = inbound.resolved_tag();
    assemble_inbound(
        tag.as_str(),
        inbound.port,
        inbound.protocol.as_str(),
        &inbound.listen,
        decode_blob(&inbound.allocate),
        decode_blob(&inbound.settings),
        decode_blob(&inbound.stream_settings),
        decode_blob(&inbound.sniffing),
    )
}

/// Builds VLESS settings.
pub fn build_vless_settings(
    clients: Vec<VlessClient>,
    decryption: Option<String>,
    fallbacks: Option<Vec<Fallback>>,
) -> (settings: Value)
    ensures
        json_model(settings) == vless_settings_json(clients@, decryption, fallbacks),
{
    let mut settings = empty_object();
    put(&mut settings, "clients", list_value(&clients));
    match &decryption {
        Some(d) => put_str(&mut settings, "decryption", d.as_str()),
        None => put_str(&mut settings, "decryption", "none"),
    }
    put_opt_list(&mut settings, "fallbacks", &fallbacks);
    settings
}

/// Builds VMess settings.
pub fn build_vmess_settings(clients: Vec<VmessClient>) -> (settings: Value)
    ensures
        json_model(settings) == vmess_settings_json(clients@),
{
    let mut settings = empty_object();
    put(&mut settings, "clients", list_value(&clients));
    settings
}

/// Builds Trojan settings.
pub fn build_trojan_settings(clients: Vec<TrojanClient>, fallbacks: Option<Vec<Fallback>>) -> (settings:
    Value)
    ensures
        json_model(settings) == trojan_settings_json(clients@, fallbacks),
{
    let mut settings = empty_object();
    put(&mut settings, "clients", list_value(&clients));
    put_opt_list(&mut settings, "fallbacks", &fallbacks);
    settings
}

/// Builds Shadowsocks settings.
pub fn build_shadowsocks_settings(
    method: String,
    password: Option<String>,
    network: Option<String>,
    clients: Option<Vec<ShadowsocksClient>>,
) -> (settings: Value)
    ensures
        json_model(settings) == shadowsocks_settings_json(method@, password, network, clients),
{
    let mut settings = empty_object();
    put_str(&mut settings, "method", method.as_str());
    put_opt_str(&mut settings, "password", &password);
    match &network {
        Some(n) => put_str(&mut settings, "network", n.as_str()),
        None => put_str(&mut settings, "network", "tcp,udp"),
    }
    put_opt_list(&mut settings, "clients", &clients);
    settings
}

/// Builds stream settings.
pub fn build_stream_settings(
    network: Option<String>,
    security: Option<String>,
    tcp_settings: Option<TcpSettings>,
    ws_settings: Option<WsSettings>,
    http_settings: Option<HttpSettings>,
    grpc_settings: Option<GrpcSettings>,
    tls_settings: Option<TlsSettings>,
    reality_settings: Option<RealitySettings>,
    sockopt: Option<Sockopt>,
) -> (stream: Value)
    ensures
        json_model(stream) == stream_settings_json(
            network,
            security,
            tcp_settings,
            ws_settings,
            http_settings,
            grpc_settings,
            tls_settings,
            reality_settings,
            sockopt,
        ),
{
    let mut stream = empty_object();
    put_opt_str(&mut stream, "network", &network);
    put_opt_str(&mut stream, "security", &security);
    put_opt_json(&mut stream, "tcpSettings", &tcp_settings);
    put_opt_json(&mut stream, "wsSettings", &ws_settings);
    put_opt_json(&mut stream, "httpSettings", &http_settings);
    put_opt_json(&mut stream, "grpcSettings", &grpc_settings);
    put_opt_json(&mut stream, "tlsSettings", &tls_settings);
    put_opt_json(&mut stream, "realitySettings", &reality_settings);
    put_opt_json(&mut stream, "sockopt", &sockopt);
    stream
}

/// The settings that a protocol has where the user gives none.
pub fn protocol_defaults(protocol: &str) -> (defaults: Value)
    ensures
        json_model(defaults) == default_settings(protocol@),
{
    let mut defaults = empty_object();
    if str_eq(protocol, "vless") {
        put_str(&mut defaults, "decryption", "none");
    } else if str_eq(protocol, "shadowsocks") {
        put_str(&mut defaults, "network", "tcp,udp");
    }
    defaults
}

/// Fills `defaults` into `user` without touching any key that `user` has.
pub fn merge_defaults(defaults: &Value, user: Option<Value>) -> (result: Value)
    ensures
        json_model(result) == merged(json_model(*defaults), opt_model(user)),
{
    let mut user = match user {
        Some(u) => u,
        None => {
            return clone_value(defaults);
        },
    };
    if !is_object(&user) {
        return user;
    }
    if !is_object(defaults) {
        assert(Map::<Seq<char>, Json>::empty().union_prefer_right(json_model(user).members())
            =~= json_model(user).members());
        return user;
    }
    let ghost d = json_model(*defaults).members();
    let ghost u = json_model(user).members();
    let keys = object_keys(defaults);
    let mut i: usize = 0;
    while i < keys.len()
        invariant
            i <= keys@.len(),
            json_model(*defaults) == Json::Object(d),
            json_model(user) is Object,
            forall|j: int| 0 <= j < keys@.len() ==> d.contains_key(#[trigger] keys@[j]@),
            forall|k: Seq<char>|
                #[trigger] json_model(user).members().contains_key(k) <==> u.contains_key(k)
                    || listed(keys@, i as int, k),
            forall|k: Seq<char>|
                json_model(user).members().contains_key(k) ==> #[trigger] json_model(
                    user,
                ).members()[k] == d.union_prefer_right(u)[k],
        decreases keys@.len() - i,
    {
        let key = keys[i].as_str();
        assert(json_model(*defaults).has(key@));
        if get(&user, key).is_none() {
            match get(defaults, key) {
                Some(v) => {
                    assign_member(&mut user, key, clone_value(v));
                },
                None => {},
            }
        }
        proof {
            let after = json_model(user).members();
            assert forall|k: Seq<char>| #[trigger]
                after.contains_key(k) <==> u.contains_key(k) || listed(
                    keys@,
                    i + 1,
                    k,
                ) by {
                if listed(keys@, i + 1, k) {
                    let j = choose|j: int| 0 <= j < i + 1 && #[trigger] keys@[j]@ == k;
                    if j < i {
                        assert(listed(keys@, i as int, k));
                    }
                }
                if listed(keys@, i as int, k) {
                    let j = choose|j: int| 0 <= j < i && #[trigger] keys@[j]@ == k;
                    assert(0 <= j < i + 1 && keys@[j]@ == k);
                }
                if k == key@ {
                    assert(0 <= i < i + 1 && keys@[i as int]@ == k);
                }
            }
        }
        i += 1;
    }
    proof {
        let after = json_model(user).members();
        assert forall|k: Seq<char>| d.contains_key(k) implies listed(keys@, keys@.len() as int, k) by {
            assert(json_model(*defaults).has(k));
        }
        assert(after =~= d.union_prefer_right(u));
    }
    user
}

/// Fills the defaults of a protocol into the settings that the user gave.
pub fn merge_with_defaults(protocol: &str, user_settings: Option<Value>) -> (result: Value)
    ensures
        json_model(result) == merged_settings(protocol@, opt_model(user_settings)),
{
    let defaults = protocol_defaults(protocol);
    merge_defaults(&defaults, user_settings)
}

/// The names of the four protocols are four different texts.
proof fn lemma_protocol_names_differ()
    ensures
        "vless"@ != "vmess"@,
        "vless"@ != "trojan"@,
        "vless"@ != "shadowsocks"@,
        "vmess"@ != "trojan"@,
        "vmess"@ != "shadowsocks"@,
        "trojan"@ != "shadowsocks"@,
{
    reveal_strlit("vless");
    reveal_strlit("vmess");
    reveal_strlit("trojan");
    reveal_strlit("shadowsocks");
    assert("vless"@.len() == 5);
    assert("vmess"@.len() == 5);
    assert("trojan"@.len() == 6);
    assert("shadowsocks"@.len() == 11);
    assert("vless"@[1] == 'l');
    assert("vmess"@[1] == 'm');
}

/// Settings without the field that their protocol requires are refused:
/// `clients` for VLESS, VMess and Trojan, `method` for Shadowsocks.
pub proof fn lemma_missing_required_field_is_rejected(protocol: Seq<char>, settings: Json)
    requires
        ((protocol == "vless"@ || protocol == "vmess"@ || protocol == "trojan"@) && !settings.has(
            "clients"@,
        )) || (protocol == "shadowsocks"@ && !settings.has("method"@)),
    ensures
        protocol_verdict(protocol, settings) is Err,
{
    lemma_protocol_names_differ();
}

/// Settings that hold what their protocol requires are accepted: a client
/// list that is not blank for VLESS, VMess and Trojan, a supported method
/// for Shadowsocks.
pub proof fn lemma_required_field_suffices(protocol: Seq<char>, settings: Json)
    requires
        ((protocol == "vless"@ || protocol == "vmess"@ || protocol == "trojan"@)
            && settings.has_content("clients"@)) || (protocol == "shadowsocks"@ && (settings.member(
            "method"@,
        ) matches Some(Json::Str(m)) && is_shadowsocks_method(m))),
    ensures
        protocol_verdict(protocol, settings) is Ok,
{
    lemma_protocol_names_differ();
}

/// VLESS settings with one client and the decryption mode `none` are
/// accepted.
pub proof fn lemma_minimal_vless_is_accepted(client: Json)
    ensures
        protocol_verdict(
            "vless"@,
            Json::empty_object().with("clients"@, Json::Array(seq![client])).with(
                "decryption"@,
                Json::Str("none"@),
            ),
        ) is Ok,
{
    reveal_strlit("clients");
    reveal_strlit("decryption");
    assert("clients"@.len() == 7);
    assert("decryption"@.len() == 10);
    let settings = Json::empty_object().with("clients"@, Json::Array(seq![client])).with(
        "decryption"@,
        Json::Str("none"@),
    );
    assert(settings.member("clients"@) == Some(Json::Array(seq![client])));
    assert(seq![client].len() == 1);
}

/// Under the security mode `reality`, stream settings are accepted exactly
/// when each of the four required fields of the Reality settings is there
/// and not blank. In particular they are refused when `shortIds` is
/// missing.
pub proof fn lemma_reality_needs_every_field(stream: Json, reality: Json)
    requires
        stream.member("security"@) == Some(Json::Str("reality"@)),
        stream.member("realitySettings"@) == Some(reality),
        !(reality is Null),
    ensures
        stream_verdict(stream) is Ok <==> {
            &&& reality.has_content("dest"@)
            &&& reality.has_content("serverNames"@)
            &&& reality.has_content("privateKey"@)
            &&& reality.has_content("shortIds"@)
        },
        !reality.has("shortIds"@) ==> stream_verdict(stream) is Err,
{
    reveal_strlit("reality");
    reveal_strlit("tls");
    assert("reality"@.len() == 7);
    assert("tls"@.len() == 3);
}

/// The merge keeps every key of the user with its value.
pub proof fn lemma_merge_keeps_user_keys(defaults: Json, user: Json, key: Seq<char>)
    requires
        user.has(key),
    ensures
        merged(defaults, Some(user)).member(key) == user.member(key),
{
}

/// Merging a second time changes nothing.
pub proof fn lemma_merge_is_idempotent(defaults: Json, user: Option<Json>)
    ensures
        merged(defaults, Some(merged(defaults, user))) == merged(defaults, user),
{
    let d = defaults.members();
    match user {
        None => {
            assert(d.union_prefer_right(d) =~= d);
        },
        Some(Json::Object(m)) => {
            assert(d.union_prefer_right(d.union_prefer_right(m)) =~= d.union_prefer_right(m));
        },
        Some(_) => {},
    }
}

/// The defaults of a protocol never overwrite what the user set, and
/// filling them in twice is the same as filling them in once.
pub proof fn lemma_merge_with_defaults_law(protocol: Seq<char>, user: Option<Json>)
    ensures
        merged_settings(protocol, Some(merged_settings(protocol, user))) == merged_settings(
            protocol,
            user,
        ),
        forall|key: Seq<char>|
            user is Some && user->0.has(key) ==> #[trigger] merged_settings(protocol, user).member(
                key,
            ) == user->0.member(key),
{
    lemma_merge_is_idempotent(default_settings(protocol), user);
}

/// Checks the settings of a protocol before they reach the engine.
pub fn validate_protocol_settings(protocol: &str, settings: &Value) -> (r: Result<(), String>)
    ensures
        verdict_view(r) == protocol_verdict(protocol@, json_model(*settings)),
{
    if str_eq(protocol, "vless") {
        if !has_content(settings, "clients") {
            return Err("VLESS 协议必须包含 clients 配置".to_owned());
        }
        Ok(())
    } else if str_eq(protocol, "vmess") {
        if !has_content(settings, "clients") {
            return Err("VMess 协议必须包含 clients 配置".to_owned());
        }
        Ok(())
    } else if str_eq(protocol, "trojan") {
        if !has_content(settings, "clients") {
            return Err("Trojan 协议必须包含 clients 配置".to_owned());
        }
        Ok(())
    } else if str_eq(protocol, "shadowsocks") {
        let method = match get(settings, "method") {
            Some(m) => as_str(m),
            None => None,
        };
        match method {
            Some(name) => {
                if !is_valid_shadowsocks_method(name) {
                    return Err(concat("不支持的 Shadowsocks 加密方法: ", name));
                }
                Ok(())
            },
            None => Err("Shadowsocks 协议必须包含 method 配置".to_owned()),
        }
    } else {
        Ok(())
    }
}

/// Checks Reality settings.
pub fn validate_reality_settings(reality: &Value) -> (r: Result<(), String>)
    ensures
        verdict_view(r) == reality_verdict(json_model(*reality)),
{
    if !has_content(reality, "dest") {
        return Err("Reality 配置必须包含 dest 字段".to_owned());
    }
    if !has_content(reality, "serverNames") {
        return Err("Reality 配置必须包含 serverNames 字段".to_owned());
    }
    if !has_content(reality, "privateKey") {
        return Err("Reality 配置必须包含 privateKey 字段".to_owned());
    }
    if !has_content(reality, "shortIds") {
        return Err("Reality 配置必须包含 shortIds 字段".to_owned());
    }
    Ok(())
}

/// Checks stream settings before they reach the engine.
pub fn validate_stream_settings(stream_settings: &Value) -> (r: Result<(), String>)
    ensures
        verdict_view(r) == stream_verdict(json_model(*stream_settings)),
{
    let security = match get(stream_settings, "security") {
        Some(s) => s,
        None => {
            return Ok(());
        },
    };
    let mode = match as_str(security) {
        Some(m) => m,
        None => {
            return Err("security 必须是字符串".to_owned());
        },
    };
    if str_eq(mode, "tls") {
        if !is_present(stream_settings, "tlsSettings") {
            return Err("启用 TLS 时必须提供 tlsSettings 配置".to_owned());
        }
        Ok(())
    } else if str_eq(mode, "reality") {
        match get(stream_settings, "realitySettings") {
            Some(reality) => {
                if is_null(reality) {
                    return Err("启用 Reality 时必须提供 realitySettings 配置".to_owned());
                }
                validate_reality_settings(reality)
            },
            None => Err("启用 Reality 时必须提供 realitySettings 配置".to_owned()),
        }
    } else if str_eq(mode, "none") {
        Ok(())
    } else {
        Err(concat("不支持的 security 类型: ", mode))
    }
}

} // verus!
