use serde_json::Value;
use xray_control::xray_config_builder::{
    merge_with_defaults, validate_protocol_settings, validate_reality_settings,
    validate_stream_settings,
};

fn value(text: &str) -> Value {
    serde_json::from_str(text).unwrap()
}

#[test]
fn test_validate_protocol_settings() {
    let vless_settings = value(r#"{"clients": [{"id": "test-uuid"}], "decryption": "none"}"#);
    assert!(validate_protocol_settings("vless", &vless_settings).is_ok());

    let invalid_vless = value("{}");
    assert!(validate_protocol_settings("vless", &invalid_vless).is_err());
}

#[test]
fn missing_clients_is_rejected_for_each_client_protocol() {
    let without = value(r#"{"decryption": "none"}"#);
    assert_eq!(
        validate_protocol_settings("vless", &without),
        Err("VLESS 协议必须包含 clients 配置".to_string())
    );
    assert_eq!(
        validate_protocol_settings("vmess", &without),
        Err("VMess 协议必须包含 clients 配置".to_string())
    );
    assert_eq!(
        validate_protocol_settings("trojan", &without),
        Err("Trojan 协议必须包含 clients 配置".to_string())
    );
}

#[test]
fn minimal_settings_are_accepted_for_each_protocol() {
    let clients = value(r#"{"clients": [{"id": "x"}]}"#);
    assert_eq!(validate_protocol_settings("vless", &clients), Ok(()));
    assert_eq!(validate_protocol_settings("vmess", &clients), Ok(()));
    assert_eq!(validate_protocol_settings("trojan", &clients), Ok(()));
    let shadowsocks = value(r#"{"method": "aes-256-gcm"}"#);
    assert_eq!(validate_protocol_settings("shadowsocks", &shadowsocks), Ok(()));
}

#[test]
fn a_client_list_without_clients_is_rejected() {
    for blank in [r#"{"clients": []}"#, r#"{"clients": null}"#, r#"{"clients": ""}"#, r#"{"clients": {}}"#] {
        assert!(validate_protocol_settings("vless", &value(blank)).is_err(), "{}", blank);
    }
    assert!(validate_protocol_settings("vless", &value("[]")).is_err());
    assert!(validate_protocol_settings("vless", &value("null")).is_err());
}

#[test]
fn shadowsocks_method_rules() {
    assert_eq!(
        validate_protocol_settings("shadowsocks", &value("{}")),
        Err("Shadowsocks 协议必须包含 method 配置".to_string())
    );
    assert_eq!(
        validate_protocol_settings("shadowsocks", &value(r#"{"method": "rc4"}"#)),
        Err("不支持的 Shadowsocks 加密方法: rc4".to_string())
    );
    assert_eq!(
        validate_protocol_settings("shadowsocks", &value(r#"{"method": 7}"#)),
        Err("Shadowsocks 协议必须包含 method 配置".to_string())
    );
    assert_eq!(
        validate_protocol_settings(
            "shadowsocks",
            &value(r#"{"method": "2022-blake3-aes-128-gcm", "clients": []}"#)
        ),
        Ok(())
    );
}

#[test]
fn unknown_protocols_pass() {
    assert_eq!(validate_protocol_settings("dokodemo-door", &value("{}")), Ok(()));
    assert_eq!(validate_protocol_settings("", &value("null")), Ok(()));
    assert_eq!(validate_protocol_settings("VLESS", &value("{}")), Ok(()));
}

#[test]
fn stream_settings_without_security_pass() {
    assert_eq!(validate_stream_settings(&value("{}")), Ok(()));
    assert_eq!(validate_stream_settings(&value(r#"{"network": "ws"}"#)), Ok(()));
    assert_eq!(validate_stream_settings(&value(r#"{"security": "none"}"#)), Ok(()));
    assert_eq!(validate_stream_settings(&value("17")), Ok(()));
}

#[test]
fn tls_needs_tls_settings() {
    assert_eq!(
        validate_stream_settings(&value(r#"{"security": "tls"}"#)),
        Err("启用 TLS 时必须提供 tlsSettings 配置".to_string())
    );
    assert_eq!(
        validate_stream_settings(&value(r#"{"security": "tls", "tlsSettings": null}"#)),
        Err("启用 TLS 时必须提供 tlsSettings 配置".to_string())
    );
    assert_eq!(
        validate_stream_settings(&value(r#"{"security": "tls", "tlsSettings": {}}"#)),
        Ok(())
    );
}

#[test]
fn unrecognized_security_is_rejected() {
    assert_eq!(
        validate_stream_settings(&value(r#"{"security": "xtls"}"#)),
        Err("不支持的 security 类型: xtls".to_string())
    );
    assert_eq!(
        validate_stream_settings(&value(r#"{"security": ""}"#)),
        Err("不支持的 security 类型: ".to_string())
    );
    for other in ["true", "null", "7", "[\"tls\"]", "{}"] {
        let mut stream = value("{}");
        stream["security"] = value(other);
        assert_eq!(
            validate_stream_settings(&stream),
            Err("security 必须是字符串".to_string()),
            "{}",
            other
        );
    }
}

const FULL_REALITY: &str = r#"{
    "dest": "example.com:443",
    "serverNames": ["example.com"],
    "privateKey": "k",
    "shortIds": ["", "0123"]
}"#;

fn reality_stream(reality: &Value) -> Value {
    let mut stream = value(r#"{"network": "tcp", "security": "reality"}"#);
    stream["realitySettings"] = reality.clone();
    stream
}

#[test]
fn reality_with_all_four_fields_is_accepted() {
    assert_eq!(validate_stream_settings(&reality_stream(&value(FULL_REALITY))), Ok(()));
    assert_eq!(validate_reality_settings(&value(FULL_REALITY)), Ok(()));
}

#[test]
fn reality_missing_short_ids_is_rejected() {
    let mut reality = value(FULL_REALITY);
    reality.as_object_mut().unwrap().remove("shortIds");
    assert_eq!(
        validate_stream_settings(&reality_stream(&reality)),
        Err("Reality 配置必须包含 shortIds 字段".to_string())
    );
}

#[test]
fn reality_reports_the_first_missing_field() {
    let cases = [
        ("dest", "Reality 配置必须包含 dest 字段"),
        ("serverNames", "Reality 配置必须包含 serverNames 字段"),
        ("privateKey", "Reality 配置必须包含 privateKey 字段"),
        ("shortIds", "Reality 配置必须包含 shortIds 字段"),
    ];
    for (field, message) in cases {
        let mut reality = value(FULL_REALITY);
        reality.as_object_mut().unwrap().remove(field);
        assert_eq!(
            validate_stream_settings(&reality_stream(&reality)),
            Err(message.to_string())
        );
    }
    assert_eq!(
        validate_stream_settings(&reality_stream(&value("{}"))),
        Err("Reality 配置必须包含 dest 字段".to_string())
    );
}

#[test]
fn reality_fields_must_not_be_empty() {
    for (field, empty) in [("dest", "\"\""), ("serverNames", "[]"), ("privateKey", "\"\""), ("shortIds", "[]")] {
        let mut reality = value(FULL_REALITY);
        reality[field] = value(empty);
        assert!(validate_stream_settings(&reality_stream(&reality)).is_err(), "{}", field);
    }
}

#[test]
fn reality_needs_reality_settings() {
    assert_eq!(
        validate_stream_settings(&value(r#"{"security": "reality"}"#)),
        Err("启用 Reality 时必须提供 realitySettings 配置".to_string())
    );
    assert_eq!(
        validate_stream_settings(&value(r#"{"security": "reality", "realitySettings": null}"#)),
        Err("启用 Reality 时必须提供 realitySettings 配置".to_string())
    );
}

#[test]
fn merge_fills_defaults_for_absent_settings() {
    assert_eq!(merge_with_defaults("vless", None), value(r#"{"decryption": "none"}"#));
    assert_eq!(merge_with_defaults("shadowsocks", None), value(r#"{"network": "tcp,udp"}"#));
    assert_eq!(merge_with_defaults("vmess", None), value("{}"));
    assert_eq!(merge_with_defaults("trojan", None), value("{}"));
    assert_eq!(merge_with_defaults("socks", None), value("{}"));
}

#[test]
fn merge_never_overwrites_user_keys() {
    let user = value(r#"{"decryption": "aes", "clients": []}"#);
    assert_eq!(merge_with_defaults("vless", Some(user.clone())), user);
    let user = value(r#"{"network": "tcp", "method": "aes-128-gcm"}"#);
    assert_eq!(merge_with_defaults("shadowsocks", Some(user.clone())), user);
    let user = value(r#"{"network": null}"#);
    assert_eq!(merge_with_defaults("shadowsocks", Some(user.clone())), user);
}

#[test]
fn merge_adds_missing_defaults() {
    assert_eq!(
        merge_with_defaults("vless", Some(value(r#"{"clients": [{"id": "a"}]}"#))),
        value(r#"{"clients": [{"id": "a"}], "decryption": "none"}"#)
    );
    assert_eq!(
        merge_with_defaults("shadowsocks", Some(value(r#"{"method": "aes-128-gcm"}"#))),
        value(r#"{"method": "aes-128-gcm", "network": "tcp,udp"}"#)
    );
    assert_eq!(merge_with_defaults("vmess", Some(value(r#"{"a": 1}"#))), value(r#"{"a": 1}"#));
}

#[test]
fn merge_is_one_level_deep() {
    let user = value(r#"{"decryption": {"inner": true}}"#);
    assert_eq!(merge_with_defaults("vless", Some(user.clone())), user);
}

#[test]
fn merge_leaves_non_objects_alone() {
    for text in ["null", "[1, 2]", "\"text\"", "5", "true"] {
        assert_eq!(merge_with_defaults("vless", Some(value(text))), value(text));
    }
}

#[test]
fn merge_twice_is_merge_once() {
    for protocol in ["vless", "vmess", "trojan", "shadowsocks", "other"] {
        for text in ["{}", r#"{"decryption": "x"}"#, r#"{"clients": []}"#, "null", "[]"] {
            let once = merge_with_defaults(protocol, Some(value(text)));
            let twice = merge_with_defaults(protocol, Some(once.clone()));
            assert_eq!(once, twice);
        }
        let once = merge_with_defaults(protocol, None);
        assert_eq!(merge_with_defaults(protocol, Some(once.clone())), once);
    }
}
