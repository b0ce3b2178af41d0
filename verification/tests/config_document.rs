use serde_json::Value;
use xray_control::errors::ApiError;
use xray_control::fields::ToJson;
use xray_control::inbound::{decode_blob, Inbound};
use xray_control::xray_config::{XrayConfig, CONTROL_PORT};
use xray_control::xray_config_builder::{
    assemble_inbound, build_shadowsocks_settings, build_stream_settings, build_trojan_settings,
    build_vless_settings, build_vmess_settings, build_xray_inbound, expand_sniffing,
};
use xray_control::protocol_settings::{
    Fallback, ShadowsocksClient, TrojanClient, VlessClient, VmessClient,
};
use xray_control::stream_settings::{
    GrpcSettings, HttpSettings, RealitySettings, Sockopt, TcpSettings, TlsSettings, WsSettings,
};
use xray_control::xray_service::{
    build_config, build_document, control_inbound, record_inbound, render_config,
    render_value, rendering_result,
};

fn value(text: &str) -> Value {
    serde_json::from_str(text).unwrap()
}

fn record(id: &str, tag: Option<&str>, protocol: &str, port: u16) -> Inbound {
    Inbound {
        id: id.to_string(),
        tag: tag.map(|t| t.to_string()),
        protocol: protocol.to_string(),
        port,
        listen: None,
        settings: None,
        stream_settings: None,
        sniffing: None,
        allocate: None,
        enable: true,
        up: 0,
        down: 0,
        total: 0,
        remark: String::new(),
    }
}

fn two_records() -> Vec<Inbound> {
    let mut a = record("1", Some("a"), "vless", 443);
    a.settings = Some(r#"{"clients":[{"id":"u"}],"decryption":"none"}"#.to_string());
    let mut b = record("2", Some("b"), "shadowsocks", 8388);
    b.settings = Some(r#"{"method":"aes-256-gcm"}"#.to_string());
    vec![a, b]
}

#[test]
fn two_enabled_records_give_three_inbounds() {
    let config: XrayConfig = build_config(&two_records(), "logs/access.log", "logs/error.log");
    assert_eq!(config.inbounds.len(), 3);
    assert_eq!(config.outbounds.len(), 2);
    assert_eq!(config.routing.as_ref().unwrap().rules.len(), 1);
    assert_eq!(config.inbounds[0].tag, "api");
    assert_eq!(config.inbounds[1].tag, "a");
    assert_eq!(config.inbounds[1].protocol, "vless");
    assert_eq!(config.inbounds[1].port, 443);
    assert_eq!(config.inbounds[2].tag, "b");
    assert_eq!(config.inbounds[2].protocol, "shadowsocks");
    assert_eq!(config.inbounds[2].port, 8388);
    assert_eq!(
        config.inbounds[2].settings,
        Some(value(r#"{"method":"aes-256-gcm"}"#))
    );

    let doc = config.to_json_value();
    assert_eq!(doc["inbounds"].as_array().unwrap().len(), 3);
    assert_eq!(doc["outbounds"].as_array().unwrap().len(), 2);
    assert_eq!(doc["routing"]["rules"].as_array().unwrap().len(), 1);
}

#[test]
fn disabled_records_are_left_out_and_order_is_kept() {
    let mut records = two_records();
    let mut c = record("3", None, "trojan", 4443);
    c.enable = false;
    records.insert(1, c);
    records.push(record("4", None, "vmess", 10086));
    let config = build_config(&records, "a", "e");
    let tags: Vec<&str> = config.inbounds.iter().map(|i| i.tag.as_str()).collect();
    assert_eq!(tags, vec!["api", "a", "b", "inbound-4"]);
}

#[test]
fn no_records_give_the_control_inbound_only() {
    let config = build_config(&Vec::new(), "a", "e");
    assert_eq!(config.inbounds.len(), 1);
    assert_eq!(config.inbounds[0].port, 10085);
    assert_eq!(CONTROL_PORT, 10085);
}

#[test]
fn the_whole_document() {
    let mut r = record("7", None, "vless", 443);
    r.listen = Some("0.0.0.0".to_string());
    r.settings = Some(r#"{"clients":[]}"#.to_string());
    r.stream_settings = Some(r#"{"network":"tcp"}"#.to_string());
    r.sniffing = Some("true".to_string());
    r.allocate = Some(r#"{"strategy":"always"}"#.to_string());
    let doc = build_document(&vec![r], "/var/logs/access.log", "/var/logs/error.log");
    let expected = value(
        r#"{
        "log": {"loglevel": "error", "access": "/var/logs/access.log",
                "error": "/var/logs/error.log"},
        "api": {"tag": "api",
                "services": ["HandlerService", "LoggerService", "StatsService"]},
        "inbounds": [
            {"tag": "api", "port": 10085, "protocol": "dokodemo-door",
             "listen": "127.0.0.1", "settings": {"address": "127.0.0.1"}},
            {"tag": "inbound-7", "port": 443, "protocol": "vless", "listen": "0.0.0.0",
             "settings": {"clients": []}, "streamSettings": {"network": "tcp"},
             "sniffing": true, "allocate": {"strategy": "always"}}
        ],
        "outbounds": [
            {"tag": "direct", "protocol": "freedom"},
            {"tag": "blocked", "protocol": "blackhole"}
        ],
        "routing": {
            "domainStrategy": "IPIfNonMatch",
            "rules": [{"type": "field", "inboundTag": ["api"], "outboundTag": "api"}]
        },
        "policy": {
            "levels": {"0": {"statsUserUplink": true, "statsUserDownlink": true,
                             "handshake": 4, "connIdle": 300, "uplinkOnly": 2,
                             "downlinkOnly": 5, "bufferSize": 512}},
            "system": {"statsInboundUplink": true, "statsInboundDownlink": true,
                       "statsOutboundUplink": true, "statsOutboundDownlink": true}
        },
        "stats": {}
    }"#,
    );
    assert_eq!(doc, expected);
}

#[test]
fn a_text_that_is_not_json_leaves_its_field_out() {
    let mut r = record("9", Some("t"), "vless", 1);
    r.settings = Some("{not json".to_string());
    r.stream_settings = Some("".to_string());
    r.sniffing = Some(r#"{"enabled":true}"#.to_string());
    let inbound = record_inbound(&r);
    assert_eq!(inbound.tag, "t");
    assert_eq!(inbound.settings, None);
    assert_eq!(inbound.stream_settings, None);
    assert_eq!(inbound.sniffing, Some(value(r#"{"enabled":true}"#)));
    assert_eq!(inbound.allocate, None);
    assert_eq!(
        inbound.to_json_value(),
        value(r#"{"tag":"t","port":1,"protocol":"vless","sniffing":{"enabled":true}}"#)
    );
    assert_eq!(decode_blob(&Some("{bad".to_string())), None);
    assert_eq!(decode_blob(&None), None);
    assert_eq!(decode_blob(&Some("[1]".to_string())), Some(value("[1]")));
}

#[test]
fn tags_default_to_the_id() {
    assert_eq!(record("42", None, "vless", 1).resolved_tag(), "inbound-42");
    assert_eq!(record("42", Some("mine"), "vless", 1).resolved_tag(), "mine");
    assert_eq!(record("", None, "vless", 1).resolved_tag(), "inbound-");
    assert_eq!(record("42", Some(""), "vless", 1).resolved_tag(), "");
}

#[test]
fn the_control_inbound() {
    let control = control_inbound();
    assert_eq!(control.tag, "api");
    assert_eq!(control.port, 10085);
    assert_eq!(control.protocol, "dokodemo-door");
    assert_eq!(control.listen.as_deref(), Some("127.0.0.1"));
    assert_eq!(control.settings, Some(value(r#"{"address":"127.0.0.1"}"#)));
    assert_eq!(control.stream_settings, None);
    assert_eq!(control.sniffing, None);
    assert_eq!(control.allocate, None);
}

#[test]
fn two_runs_give_the_same_bytes() {
    let first = render_config(&two_records(), "a.log", "e.log").unwrap();
    let second = render_config(&two_records(), "a.log", "e.log").unwrap();
    assert_eq!(first, second);
    assert_eq!(first.as_bytes(), second.as_bytes());
    let mut with_disabled = two_records();
    let mut off = record("5", Some("off"), "vmess", 5);
    off.enable = false;
    with_disabled.push(off);
    assert_eq!(render_config(&with_disabled, "a.log", "e.log").unwrap(), first);
    let reparsed: Value = serde_json::from_str(&first).unwrap();
    assert_eq!(reparsed, build_document(&two_records(), "a.log", "e.log"));
}

#[test]
fn rendering_is_the_pretty_form() {
    let doc = value(r#"{"b":[1,"x"],"a":{}}"#);
    assert_eq!(
        render_value(&doc).unwrap(),
        "{\n  \"a\": {},\n  \"b\": [\n    1,\n    \"x\"\n  ]\n}"
    );
}

#[test]
fn a_serializer_failure_becomes_an_internal_error() {
    assert_eq!(rendering_result(Ok("text".to_string())).unwrap(), "text");
    match rendering_result(Err("key must be a string".to_string())) {
        Err(ApiError::InternalError(message)) => {
            assert_eq!(message, "Failed to serialize config: key must be a string");
        }
        other => panic!("unexpected: {:?}", other),
    }
    let error = ApiError::system("a: ", "b");
    assert_eq!(error.message(), "a: b");
    assert!(matches!(error, ApiError::SystemError(_)));
    assert_eq!(ApiError::internal("x", "y").message(), "xy");
}

#[test]
fn inbound_for_the_engine() {
    let mut r = record("3", None, "trojan", 8443);
    r.listen = Some(String::new());
    r.settings = Some(r#"{"clients":[{"password":"p"}]}"#.to_string());
    r.sniffing = Some("true".to_string());
    r.allocate = Some("oops".to_string());
    assert_eq!(
        build_xray_inbound(&r),
        value(
            r#"{"tag":"inbound-3","port":8443,"protocol":"trojan",
                "settings":{"clients":[{"password":"p"}]},
                "sniffing":{"enabled":true,
                            "destOverride":["http","tls","quic","fakedns"]}}"#
        )
    );
    r.listen = Some("::".to_string());
    r.sniffing = Some(r#"{"enabled":false}"#.to_string());
    r.tag = Some("t".to_string());
    assert_eq!(
        build_xray_inbound(&r),
        value(
            r#"{"tag":"t","port":8443,"protocol":"trojan","listen":"::",
                "settings":{"clients":[{"password":"p"}]},
                "sniffing":{"enabled":false}}"#
        )
    );
}

#[test]
fn sniffing_in_full() {
    assert_eq!(
        expand_sniffing(value("false")),
        value(r#"{"enabled":false,"destOverride":["http","tls","quic","fakedns"]}"#)
    );
    assert_eq!(expand_sniffing(value("null")), value("null"));
    assert_eq!(expand_sniffing(value(r#"{"enabled":1}"#)), value(r#"{"enabled":1}"#));
}

#[test]
fn an_inbound_from_its_parts() {
    let entry = assemble_inbound(
        "t",
        65535,
        "vmess",
        &None,
        Some(value("1")),
        None,
        Some(value("[]")),
        None,
    );
    assert_eq!(
        entry,
        value(r#"{"tag":"t","port":65535,"protocol":"vmess","allocate":1,"streamSettings":[]}"#)
    );
}

#[test]
fn protocol_settings_builders() {
    let client = VlessClient { id: "i".to_string(), flow: None, level: None, email: None };
    assert_eq!(
        build_vless_settings(vec![client.clone()], None, None),
        value(r#"{"clients":[{"id":"i"}],"decryption":"none"}"#)
    );
    let fallback = Fallback {
        name: None,
        alpn: None,
        path: None,
        dest: "80".to_string(),
        xver: None,
    };
    assert_eq!(
        build_vless_settings(vec![client], Some("x".to_string()), Some(vec![fallback.clone()])),
        value(r#"{"clients":[{"id":"i"}],"decryption":"x","fallbacks":[{"dest":"80"}]}"#)
    );
    assert_eq!(build_vless_settings(vec![], None, Some(vec![])),
        value(r#"{"clients":[],"decryption":"none","fallbacks":[]}"#));
    let vmess = VmessClient { id: "v".to_string(), alter_id: None, level: None, email: None };
    assert_eq!(build_vmess_settings(vec![vmess]), value(r#"{"clients":[{"id":"v"}]}"#));
    let trojan = TrojanClient { password: "p".to_string(), level: None, email: None, flow: None };
    assert_eq!(
        build_trojan_settings(vec![trojan.clone()], None),
        value(r#"{"clients":[{"password":"p"}]}"#)
    );
    assert_eq!(
        build_trojan_settings(vec![trojan], Some(vec![fallback])),
        value(r#"{"clients":[{"password":"p"}],"fallbacks":[{"dest":"80"}]}"#)
    );
    assert_eq!(
        build_shadowsocks_settings("aes-128-gcm".to_string(), None, None, None),
        value(r#"{"method":"aes-128-gcm","network":"tcp,udp"}"#)
    );
    let ss = ShadowsocksClient { password: "q".to_string(), method: None, email: None, level: None };
    assert_eq!(
        build_shadowsocks_settings(
            "aes-128-gcm".to_string(),
            Some("pw".to_string()),
            Some("udp".to_string()),
            Some(vec![ss])
        ),
        value(
            r#"{"method":"aes-128-gcm","password":"pw","network":"udp",
                "clients":[{"password":"q"}]}"#
        )
    );
}

#[test]
fn stream_settings_builder() {
    assert_eq!(
        build_stream_settings(None, None, None, None, None, None, None, None, None),
        value("{}")
    );
    let stream = build_stream_settings(
        Some("grpc".to_string()),
        Some("reality".to_string()),
        Some(TcpSettings::default()),
        Some(WsSettings { path: Some("/".to_string()), ..WsSettings::default() }),
        Some(HttpSettings::default()),
        Some(GrpcSettings { service_name: Some("s".to_string()), ..GrpcSettings::default() }),
        Some(TlsSettings::default()),
        Some(RealitySettings { dest: Some("d".to_string()), ..RealitySettings::default() }),
        Some(Sockopt { mark: Some(1), ..Sockopt::default() }),
    );
    assert_eq!(
        stream,
        value(
            r#"{"network":"grpc","security":"reality","tcpSettings":{},
                "wsSettings":{"path":"/"},"httpSettings":{},
                "grpcSettings":{"serviceName":"s"},"tlsSettings":{},
                "realitySettings":{"dest":"d"},"sockopt":{"mark":1}}"#
        )
    );
}
