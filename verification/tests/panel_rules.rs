use xray_control::env_file::env_file_content;
use xray_control::errors::ApiError;
use xray_control::fields::has_distinct_names;
use xray_control::reality::{
    check_response, probe_host, probe_outcome, probe_url, ProbeOutcome, RealityCheckRequest,
};
use xray_control::security::security_headers;
use xray_control::stream_settings::{HttpRequest, WsSettings};
use xray_control::token_validator::{
    auth_user, bearer_token, freshness_verdict, token_user_id,
};

fn unauthorized(result: Result<(), ApiError>) -> String {
    match result {
        Err(ApiError::Unauthorized(message)) => message,
        other => panic!("unexpected: {:?}", other),
    }
}

#[test]
fn the_host_is_what_stands_before_the_port() {
    assert_eq!(probe_host("example.com:443"), "example.com");
    assert_eq!(probe_host("example.com"), "example.com");
    assert_eq!(probe_host(":443"), "");
    assert_eq!(probe_host(""), "");
    assert_eq!(probe_host("a:b:c"), "a");
    assert_eq!(probe_host("例子.测试:8443"), "例子.测试");
    let request = RealityCheckRequest { domain: "www.example.org:443".to_string() };
    assert_eq!(probe_url(&request.domain), "https://www.example.org");
    assert_eq!(probe_url(""), "https://");
}

#[test]
fn what_the_attempts_mean() {
    assert_eq!(probe_outcome(true, false, false), ProbeOutcome::Tls13);
    assert_eq!(probe_outcome(true, true, true), ProbeOutcome::Tls13);
    assert_eq!(probe_outcome(false, true, true), ProbeOutcome::OlderTls);
    assert_eq!(probe_outcome(false, true, false), ProbeOutcome::Unreachable { timed_out: true });
    assert_eq!(
        probe_outcome(false, false, false),
        ProbeOutcome::Unreachable { timed_out: false }
    );
}

#[test]
fn the_judgement_on_a_site() {
    let good = check_response(ProbeOutcome::Tls13, 120);
    assert!(good.is_valid && good.has_tls13);
    assert_eq!(good.key_exchange, "X25519");
    assert_eq!(good.latency, 120);
    assert_eq!(good.message, "目标支持 TLS 1.3 及 X25519 密钥交换");

    let old = check_response(ProbeOutcome::OlderTls, 7);
    assert!(!old.is_valid && !old.has_tls13);
    assert_eq!(old.key_exchange, "Unsupported");
    assert_eq!(old.latency, 7);
    assert_eq!(old.message, "目标站不支持 TLS 1.3 (仅支持 1.2 或更低版本)");

    let slow = check_response(ProbeOutcome::Unreachable { timed_out: true }, 6000);
    assert!(!slow.is_valid && !slow.has_tls13);
    assert_eq!(slow.key_exchange, "None");
    assert_eq!(slow.latency, 6000);
    assert_eq!(slow.message, "VPS 连接目标站失败: 请求超时 (请检查线路质量)");

    let reset = check_response(ProbeOutcome::Unreachable { timed_out: false }, u128::MAX);
    assert_eq!(reset.latency, u128::MAX);
    assert_eq!(reset.message, "VPS 连接目标站失败: 连接被重置 (请检查线路质量)");
}

#[test]
fn the_user_id_of_a_token() {
    assert_eq!(token_user_id("17").unwrap(), 17);
    assert_eq!(token_user_id("-3").unwrap(), -3);
    assert_eq!(token_user_id("+4").unwrap(), 4);
    for bad in ["", "abc", "1 ", " 1", "1.0", "9223372036854775808", "-", "0x10"] {
        match token_user_id(bad) {
            Err(ApiError::Unauthorized(message)) => {
                assert_eq!(message, "Invalid user ID in token")
            }
            other => panic!("unexpected for {:?}: {:?}", bad, other),
        }
    }
}

#[test]
fn a_token_stands_while_the_password_is_unchanged() {
    assert!(freshness_verdict(3, Some(3)).is_ok());
    assert!(freshness_verdict(i64::MIN, Some(i64::MIN)).is_ok());
    assert_eq!(
        unauthorized(freshness_verdict(3, Some(4))),
        "Token has been invalidated due to password change"
    );
    assert_eq!(
        unauthorized(freshness_verdict(4, Some(3))),
        "Token has been invalidated due to password change"
    );
    assert_eq!(unauthorized(freshness_verdict(3, None)), "User not found");
}

#[test]
fn the_token_of_a_header() {
    assert_eq!(bearer_token("Bearer abc.def"), Some("abc.def".to_string()));
    assert_eq!(bearer_token("Bearer "), Some(String::new()));
    assert_eq!(bearer_token("Bearer  x"), Some(" x".to_string()));
    assert_eq!(bearer_token("Bearer 令牌"), Some("令牌".to_string()));
    assert_eq!(bearer_token("bearer abc"), None);
    assert_eq!(bearer_token("Bearer"), None);
    assert_eq!(bearer_token("Basic abc"), None);
    assert_eq!(bearer_token(" Bearer abc"), None);
    assert_eq!(bearer_token(""), None);
}

#[test]
fn the_user_of_a_token() {
    let user = auth_user("12", "admin").unwrap();
    assert_eq!(user.user_id, 12);
    assert_eq!(user.username, "admin");
    assert!(auth_user("twelve", "admin").is_none());
    assert!(auth_user("", "admin").is_none());
}

#[test]
fn the_headers_of_a_response() {
    let headers = security_headers(false);
    let names: Vec<&str> = headers.iter().map(|h| h.0.as_str()).collect();
    assert_eq!(
        names,
        vec![
            "content-security-policy",
            "x-frame-options",
            "x-content-type-options",
            "x-xss-protection",
            "referrer-policy",
            "permissions-policy",
        ]
    );
    assert_eq!(
        headers[0].1,
        "default-src 'self'; script-src 'self'; style-src 'self' 'unsafe-inline' \
         https://fonts.googleapis.com; font-src 'self' https://fonts.gstatic.com; \
         img-src 'self' data: blob:; connect-src 'self'; frame-ancestors 'none'; \
         base-uri 'self'; form-action 'self';"
    );
    assert_eq!(headers[1].1, "DENY");
    assert_eq!(headers[2].1, "nosniff");
    assert_eq!(headers[3].1, "1; mode=block");
    assert_eq!(headers[4].1, "strict-origin-when-cross-origin");
    assert_eq!(
        headers[5].1,
        "geolocation=(), microphone=(), camera=(), payment=(), usb=(), \
         magnetometer=(), gyroscope=(), accelerometer=()"
    );
    let production = security_headers(true);
    assert_eq!(production.len(), 7);
    assert_eq!(production[..6], headers[..]);
    assert_eq!(production[6].0, "strict-transport-security");
    assert_eq!(production[6].1, "max-age=31536000; includeSubDomains; preload");
}

#[test]
fn the_settings_file_of_a_first_start() {
    let content = env_file_content("s3cret");
    assert!(content.starts_with("# 自动生成的配置文件 - 首次启动创建\nDATABASE_URL=sqlite://data/x-ui.db\n"));
    assert!(content.contains("\nJWT_SECRET=s3cret\nJWT_EXPIRATION_HOURS=24\n"));
    assert!(content.contains("\nSERVER_HOST=0.0.0.0\nSERVER_PORT=8080\n"));
    assert!(content.contains("\nXRAY_BIN_PATH=./bin/xray\nXRAY_CONFIG_PATH=./data/xray.json\n"));
    assert!(content.ends_with("\nRUST_LOG=debug,sqlx=warn\n"));
    assert_eq!(content.lines().count(), 17);
    assert_eq!(env_file_content("").lines().nth(4), Some("JWT_SECRET="));
}

#[test]
fn header_tables_hold_each_name_once() {
    assert!(has_distinct_names::<String>(&vec![]));
    assert!(has_distinct_names(&vec![("a".to_string(), 1), ("b".to_string(), 1)]));
    assert!(!has_distinct_names(&vec![
        ("a".to_string(), 1),
        ("b".to_string(), 2),
        ("a".to_string(), 3)
    ]));
    assert!(has_distinct_names(&vec![("a".to_string(), 1), ("A".to_string(), 1)]));
    let request = HttpRequest {
        version: "1.1".to_string(),
        method: "GET".to_string(),
        path: vec![],
        headers: vec![("Host".to_string(), vec![]), ("Host".to_string(), vec![])],
    };
    assert!(!request.is_well_formed());
    assert!(WsSettings::default().is_well_formed());
    let ws = WsSettings {
        headers: Some(vec![("a".to_string(), "1".to_string())]),
        ..WsSettings::default()
    };
    assert!(ws.is_well_formed());
}
