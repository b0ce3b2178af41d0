use serde_json::Value;
use xray_control::fields::ToJson;
use xray_control::protocol_settings::{
    is_valid_shadowsocks_method, AllocateSettings, Fallback, ProtocolSettings,
    ShadowsocksClient, ShadowsocksSettings, SniffingSettings, TrojanClient, TrojanSettings,
    VlessClient, VlessSettings, VmessClient, VmessDefault, VmessDetour, VmessSettings,
};
use xray_control::stream_settings::{
    Certificate, GrpcSettings, HttpRequest, HttpResponse, HttpSettings, HttpUpgradeSettings,
    KcpHeader, KcpSettings, QuicHeader, QuicSettings, RealitySettings, Sockopt, StreamSettings,
    TcpHeader, TcpSettings, TlsSettings, WsSettings, XhttpSettings,
};

fn json(text: &str) -> Value {
    serde_json::from_str(text).unwrap()
}

#[test]
fn test_validate_shadowsocks_method() {
    assert!(is_valid_shadowsocks_method("aes-128-gcm"));
    assert!(is_valid_shadowsocks_method("chacha20-ietf-poly1305"));
    assert!(!is_valid_shadowsocks_method("invalid-method"));
}

#[test]
fn every_listed_cipher_is_valid() {
    for method in [
        "aes-128-gcm",
        "aes-256-gcm",
        "chacha20-ietf-poly1305",
        "xchacha20-ietf-poly1305",
        "2022-blake3-aes-128-gcm",
        "2022-blake3-aes-256-gcm",
        "2022-blake3-chacha20-poly1305",
    ] {
        assert!(is_valid_shadowsocks_method(method), "{}", method);
    }
    assert!(!is_valid_shadowsocks_method(""));
    assert!(!is_valid_shadowsocks_method("AES-128-GCM"));
    assert!(!is_valid_shadowsocks_method("aes-128-gcm "));
}

fn vless_client() -> VlessClient {
    VlessClient { id: "u-1".to_string(), flow: None, level: Some(0), email: None }
}

#[test]
fn protocol_name_by_variant() {
    let vless = ProtocolSettings::Vless(VlessSettings::default());
    let vmess = ProtocolSettings::Vmess(VmessSettings::default());
    let trojan = ProtocolSettings::Trojan(TrojanSettings::default());
    let shadowsocks = ProtocolSettings::Shadowsocks(ShadowsocksSettings::default());
    assert_eq!(vless.protocol_name(), "vless");
    assert_eq!(vmess.protocol_name(), "vmess");
    assert_eq!(trojan.protocol_name(), "trojan");
    assert_eq!(shadowsocks.protocol_name(), "shadowsocks");
}

#[test]
fn vless_settings_to_json() {
    let settings = ProtocolSettings::Vless(VlessSettings {
        clients: vec![vless_client()],
        decryption: Some("none".to_string()),
        fallbacks: Some(vec![Fallback {
            name: None,
            alpn: Some("h2".to_string()),
            path: None,
            dest: "127.0.0.1:80".to_string(),
            xver: Some(1),
        }]),
    });
    assert_eq!(
        settings.to_json_value(),
        json(
            r#"{"clients":[{"id":"u-1","level":0}],"decryption":"none",
                "fallbacks":[{"alpn":"h2","dest":"127.0.0.1:80","xver":1}]}"#
        )
    );
}

#[test]
fn vmess_settings_to_json() {
    let settings = ProtocolSettings::Vmess(VmessSettings {
        clients: vec![VmessClient {
            id: "u-2".to_string(),
            alter_id: Some(4),
            level: None,
            email: Some("a@b.c".to_string()),
        }],
        default: Some(VmessDefault { level: Some(1), alter_id: None }),
        detour: Some(VmessDetour { to: "out".to_string() }),
        disable_insecure_encryption: Some(true),
    });
    assert_eq!(
        settings.to_json_value(),
        json(
            r#"{"clients":[{"id":"u-2","alterId":4,"email":"a@b.c"}],
                "default":{"level":1},"detour":{"to":"out"},
                "disableInsecureEncryption":true}"#
        )
    );
}

#[test]
fn trojan_and_shadowsocks_settings_to_json() {
    let trojan = ProtocolSettings::Trojan(TrojanSettings {
        clients: vec![TrojanClient {
            password: "pw".to_string(),
            level: None,
            email: None,
            flow: Some("xtls-rprx-vision".to_string()),
        }],
        fallbacks: None,
    });
    assert_eq!(
        trojan.to_json_value(),
        json(r#"{"clients":[{"password":"pw","flow":"xtls-rprx-vision"}]}"#)
    );
    let shadowsocks = ProtocolSettings::Shadowsocks(ShadowsocksSettings {
        method: "aes-256-gcm".to_string(),
        password: Some("pw".to_string()),
        network: None,
        clients: Some(vec![ShadowsocksClient {
            password: "p2".to_string(),
            method: None,
            email: None,
            level: Some(3),
        }]),
        udp_over_tcp: Some(false),
    });
    assert_eq!(
        shadowsocks.to_json_value(),
        json(
            r#"{"method":"aes-256-gcm","password":"pw",
                "clients":[{"password":"p2","level":3}],"udpOverTcp":false}"#
        )
    );
}

#[test]
fn typed_protocol_settings_validity() {
    assert!(!ProtocolSettings::Vless(VlessSettings::default()).is_well_formed());
    assert!(!ProtocolSettings::Vmess(VmessSettings::default()).is_well_formed());
    assert!(!ProtocolSettings::Trojan(TrojanSettings::default()).is_well_formed());
    assert!(!ProtocolSettings::Shadowsocks(ShadowsocksSettings::default()).is_well_formed());
    let vless = ProtocolSettings::Vless(VlessSettings {
        clients: vec![vless_client()],
        decryption: None,
        fallbacks: None,
    });
    assert!(vless.is_well_formed());
    let shadowsocks = ProtocolSettings::Shadowsocks(ShadowsocksSettings {
        method: "aes-128-gcm".to_string(),
        ..ShadowsocksSettings::default()
    });
    assert!(shadowsocks.is_well_formed());
}

#[test]
fn sniffing_and_allocate_to_json() {
    let sniffing = SniffingSettings {
        enabled: true,
        dest_override: Some(vec!["http".to_string(), "tls".to_string()]),
        metadata_only: None,
        route_only: Some(false),
    };
    assert_eq!(
        sniffing.to_json_value(),
        json(r#"{"enabled":true,"destOverride":["http","tls"],"routeOnly":false}"#)
    );
    let allocate = AllocateSettings {
        strategy: Some("random".to_string()),
        refresh: Some(5),
        concurrency: None,
    };
    assert_eq!(allocate.to_json_value(), json(r#"{"strategy":"random","refresh":5}"#));
    assert_eq!(AllocateSettings::default().to_json_value(), json("{}"));
}

#[test]
fn tcp_settings_to_json_renames_header_type() {
    let tcp = TcpSettings {
        accept_proxy_protocol: Some(true),
        header: Some(TcpHeader {
            header_type: "http".to_string(),
            request: Some(HttpRequest {
                version: "1.1".to_string(),
                method: "GET".to_string(),
                path: vec!["/".to_string()],
                headers: vec![("Host".to_string(), vec!["a.example".to_string()])],
            }),
            response: Some(HttpResponse {
                version: "1.1".to_string(),
                status: "200".to_string(),
                reason: "OK".to_string(),
                headers: vec![],
            }),
        }),
    };
    assert_eq!(
        tcp.to_json_value(),
        json(
            r#"{"acceptProxyProtocol":true,"header":{"type":"http",
                "request":{"version":"1.1","method":"GET","path":["/"],
                           "headers":{"Host":["a.example"]}},
                "response":{"version":"1.1","status":"200","reason":"OK","headers":{}}}}"#
        )
    );
}

#[test]
fn later_header_of_the_same_name_stands() {
    let ws = WsSettings {
        path: Some("/ws".to_string()),
        headers: Some(vec![
            ("Host".to_string(), "first".to_string()),
            ("Host".to_string(), "second".to_string()),
        ]),
        max_early_data: Some(2048),
        ..WsSettings::default()
    };
    assert_eq!(
        ws.to_json_value(),
        json(r#"{"path":"/ws","headers":{"Host":"second"},"maxEarlyData":2048}"#)
    );
}

#[test]
fn transports_to_json() {
    let http = HttpSettings {
        host: Some(vec!["h".to_string()]),
        read_idle_timeout: Some(10),
        ..HttpSettings::default()
    };
    assert_eq!(http.to_json_value(), json(r#"{"host":["h"],"readIdleTimeout":10}"#));
    let grpc = GrpcSettings {
        service_name: Some("svc".to_string()),
        multi_mode: Some(true),
        initial_windows_size: Some(7),
        ..GrpcSettings::default()
    };
    assert_eq!(
        grpc.to_json_value(),
        json(r#"{"serviceName":"svc","multiMode":true,"initialWindowsSize":7}"#)
    );
    let xhttp = XhttpSettings {
        mode: Some("auto".to_string()),
        extra: Some(vec![("k".to_string(), json(r#"{"n":[1,2.5,null]}"#))]),
        ..XhttpSettings::default()
    };
    assert_eq!(xhttp.to_json_value(), json(r#"{"mode":"auto","extra":{"k":{"n":[1,2.5,null]}}}"#));
    let kcp = KcpSettings {
        mtu: Some(1350),
        congestion: Some(false),
        header: Some(KcpHeader { header_type: "srtp".to_string() }),
        ..KcpSettings::default()
    };
    assert_eq!(
        kcp.to_json_value(),
        json(r#"{"mtu":1350,"congestion":false,"header":{"type":"srtp"}}"#)
    );
    let quic = QuicSettings {
        security: Some("none".to_string()),
        key: None,
        header: Some(QuicHeader { header_type: "none".to_string() }),
    };
    assert_eq!(quic.to_json_value(), json(r#"{"security":"none","header":{"type":"none"}}"#));
    let upgrade = HttpUpgradeSettings {
        host: Some("h".to_string()),
        headers: Some(vec![("A".to_string(), "b".to_string())]),
        ..HttpUpgradeSettings::default()
    };
    assert_eq!(upgrade.to_json_value(), json(r#"{"host":"h","headers":{"A":"b"}}"#));
}

#[test]
fn security_blocks_to_json() {
    let tls = TlsSettings {
        server_name: Some("example.com".to_string()),
        alpn: Some(vec!["h2".to_string()]),
        certificates: Some(vec![Certificate {
            usage: None,
            certificate_file: Some("/c.pem".to_string()),
            key_file: Some("/k.pem".to_string()),
            certificate: None,
            key: None,
            ocsp_stapling: Some(3600),
            one_time_loading: None,
        }]),
        pinned_peer_certificate_chain_sha256: Some(vec!["ab".to_string()]),
        ..TlsSettings::default()
    };
    assert_eq!(
        tls.to_json_value(),
        json(
            r#"{"serverName":"example.com","alpn":["h2"],
                "certificates":[{"certificateFile":"/c.pem","keyFile":"/k.pem","ocspStapling":3600}],
                "pinnedPeerCertificateChainSha256":["ab"]}"#
        )
    );
    let reality = RealitySettings {
        dest: Some("example.com:443".to_string()),
        server_names: Some(vec!["example.com".to_string()]),
        private_key: Some("key".to_string()),
        short_ids: Some(vec!["".to_string()]),
        max_time_diff: Some(18446744073709551615),
        server_port: Some(443),
        spider_x: Some("/".to_string()),
        ..RealitySettings::default()
    };
    assert_eq!(
        reality.to_json_value(),
        json(
            r#"{"dest":"example.com:443","serverNames":["example.com"],"privateKey":"key",
                "shortIds":[""],"maxTimeDiff":18446744073709551615,"serverPort":443,
                "spiderX":"/"}"#
        )
    );
    let sockopt = Sockopt {
        mark: Some(255),
        tcp_fast_open: Some(true),
        v6only: Some(false),
        tcp_mptcp: Some(true),
        ..Sockopt::default()
    };
    assert_eq!(
        sockopt.to_json_value(),
        json(r#"{"mark":255,"tcpFastOpen":true,"v6only":false,"tcpMptcp":true}"#)
    );
}

#[test]
fn stream_settings_to_json_and_validity() {
    let mut stream = StreamSettings {
        network: Some("ws".to_string()),
        security: Some("tls".to_string()),
        ws_settings: Some(WsSettings::default()),
        ..StreamSettings::default()
    };
    assert_eq!(
        stream.to_json_value(),
        json(r#"{"network":"ws","security":"tls","wsSettings":{}}"#)
    );
    assert!(!stream.is_well_formed());
    stream.tls_settings = Some(TlsSettings::default());
    assert!(stream.is_well_formed());

    stream.security = Some("reality".to_string());
    assert!(!stream.is_well_formed());
    let mut reality = RealitySettings {
        dest: Some("example.com:443".to_string()),
        server_names: Some(vec!["example.com".to_string()]),
        private_key: Some("key".to_string()),
        short_ids: None,
        ..RealitySettings::default()
    };
    assert!(!reality.is_complete());
    stream.reality_settings = Some(reality.clone());
    assert!(!stream.is_well_formed());
    reality.short_ids = Some(vec![]);
    assert!(!reality.is_complete());
    reality.short_ids = Some(vec!["01".to_string()]);
    assert!(reality.is_complete());
    stream.reality_settings = Some(reality);
    assert!(stream.is_well_formed());

    stream.security = Some("none".to_string());
    assert!(stream.is_well_formed());
    stream.security = None;
    assert!(stream.is_well_formed());
    stream.security = Some("ssl".to_string());
    assert!(!stream.is_well_formed());
}

#[test]
fn blocks_belong_to_the_named_transport_and_mode() {
    assert!(StreamSettings::default().has_matching_blocks());
    let mut stream = StreamSettings {
        network: Some("ws".to_string()),
        ws_settings: Some(WsSettings::default()),
        ..StreamSettings::default()
    };
    assert!(stream.has_matching_blocks());
    stream.tcp_settings = Some(TcpSettings::default());
    assert!(!stream.has_matching_blocks());
    stream.tcp_settings = None;
    stream.network = None;
    assert!(!stream.has_matching_blocks());
    stream.network = Some("httpUpgrade".to_string());
    stream.ws_settings = None;
    stream.httpupgrade_settings = Some(HttpUpgradeSettings::default());
    assert!(stream.has_matching_blocks());
    stream.tls_settings = Some(TlsSettings::default());
    assert!(!stream.has_matching_blocks());
    stream.security = Some("tls".to_string());
    assert!(stream.has_matching_blocks());
    stream.reality_settings = Some(RealitySettings::default());
    assert!(!stream.has_matching_blocks());
    let http = StreamSettings {
        network: Some("http2".to_string()),
        http_settings: Some(HttpSettings::default()),
        ..StreamSettings::default()
    };
    assert!(http.has_matching_blocks());
}
