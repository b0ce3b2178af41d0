//! Transport and security settings of an endpoint's stream, with the JSON
//! form the engine reads.
//!
//! Field names in the JSON form are camel case, and an optional field that is
//! `None` is left out. Header tables are lists of named entries; in the JSON
//! form they are objects, so of two entries with one name the later stands.

use crate::fields::{
    has_distinct_names, has_distinct_names_opt, names_distinct, opt_names_distinct,
    json_named_lists, json_opt, json_opt_bool, json_opt_list, json_opt_named_strings,
    json_opt_named_values, json_opt_str, json_opt_strings, json_opt_u16, json_opt_u32,
    json_opt_u64, json_opt_u8, json_strings, named_lists_value, put, put_opt_bool, put_opt_json,
    put_opt_list, put_opt_named_strings, put_opt_named_values, put_opt_str, put_opt_strings,
    put_opt_u16, put_opt_u32, put_opt_u64, put_opt_u8, put_str, strings_value, ToJson,
};
use crate::json::{empty_object, Json};
use crate::text::str_eq;
use serde_json::Value;
use vstd::prelude::*;

verus! {

/// Transport and security of an endpoint's stream.
#[derive(Debug, Clone, Default)]
pub struct StreamSettings {
    /// Transport kind: `tcp`, `ws`, `http2`, `grpc`, `xhttp`, `kcp`, `quic` or `httpUpgrade`.
    pub network: Option<String>,
    /// Security mode: `none`, `tls` or `reality`.
    pub security: Option<String>,
    /// Settings of the TCP transport.
    pub tcp_settings: Option<TcpSettings>,
    /// Settings of the WebSocket transport.
    pub ws_settings: Option<WsSettings>,
    /// Settings of the HTTP/2 transport.
    pub http_settings: Option<HttpSettings>,
    /// Settings of the gRPC transport.
    pub grpc_settings: Option<GrpcSettings>,
    /// Settings of the XHTTP transport.
    pub xhttp_settings: Option<XhttpSettings>,
    /// Settings of the mKCP transport.
    pub kcp_settings: Option<KcpSettings>,
    /// Settings of the QUIC transport.
    pub quic_settings: Option<QuicSettings>,
    /// Settings of the HTTP upgrade transport.
    pub httpupgrade_settings: Option<HttpUpgradeSettings>,
    /// TLS settings, needed when `security` is `tls`.
    pub tls_settings: Option<TlsSettings>,
    /// Reality settings, needed when `security` is `reality`.
    pub reality_settings: Option<RealitySettings>,
    /// Socket options.
    pub sockopt: Option<Sockopt>,
}

/// Settings of the TCP transport.
#[derive(Debug, Clone, Default)]
pub struct TcpSettings {
    /// Accept the PROXY protocol.
    pub accept_proxy_protocol: Option<bool>,
    /// Header obfuscation.
    pub header: Option<TcpHeader>,
}

/// Header obfuscation of the TCP transport.
#[derive(Debug, Clone)]
pub struct TcpHeader {
    /// Kind of obfuscation: `none` or `http`.
    pub header_type: String,
    /// Request to imitate.
    pub request: Option<HttpRequest>,
    /// Response to imitate.
    pub response: Option<HttpResponse>,
}

/// An HTTP request to imitate.
#[derive(Debug, Clone)]
pub struct HttpRequest {
    /// HTTP version.
    pub version: String,
    /// Request method.
    pub method: String,
    /// Request paths to choose from.
    pub path: Vec<String>,
    /// Header names, each with the values to choose from.
    pub headers: Vec<(String, Vec<String>)>,
}

/// An HTTP response to imitate.
#[derive(Debug, Clone)]
pub struct HttpResponse {
    /// HTTP version.
    pub version: String,
    /// Status code.
    pub status: String,
    /// Reason phrase.
    pub reason: String,
    /// Header names, each with the values to choose from.
    pub headers: Vec<(String, Vec<String>)>,
}

/// Settings of the WebSocket transport.
#[derive(Debug, Clone, Default)]
pub struct WsSettings {
    /// Accept the PROXY protocol.
    pub accept_proxy_protocol: Option<bool>,
    /// Request path.
    pub path: Option<String>,
    /// Extra request headers.
    pub headers: Option<Vec<(String, String)>>,
    /// Largest early data, in bytes.
    pub max_early_data: Option<u32>,
    /// Header that carries early data.
    pub early_data_header_name: Option<String>,
}

/// Settings of the HTTP/2 transport.
#[derive(Debug, Clone, Default)]
pub struct HttpSettings {
    /// Host names.
    pub host: Option<Vec<String>>,
    /// Request path.
    pub path: Option<String>,
    /// Seconds without data before a health check.
    pub read_idle_timeout: Option<u32>,
    /// Seconds a health check may take.
    pub health_check_timeout: Option<u32>,
}

/// Settings of the gRPC transport.
#[derive(Debug, Clone, Default)]
pub struct GrpcSettings {
    /// Service name.
    pub service_name: Option<String>,
    /// Multiplex streams.
    pub multi_mode: Option<bool>,
    /// Seconds without data before a health check.
    pub idle_timeout: Option<u32>,
    /// Seconds a health check may take.
    pub health_check_timeout: Option<u32>,
    /// Health checks without an open stream.
    pub permit_without_stream: Option<bool>,
    /// Initial window size.
    pub initial_windows_size: Option<u32>,
}

/// Settings of the XHTTP transport.
#[derive(Debug, Clone, Default)]
pub struct XhttpSettings {
    /// Mode.
    pub mode: Option<String>,
    /// Request path.
    pub path: Option<String>,
    /// Host name.
    pub host: Option<String>,
    /// Further settings, passed through as they are.
    pub extra: Option<Vec<(String, Value)>>,
}

/// Settings of the mKCP transport.
#[derive(Debug, Clone, Default)]
pub struct KcpSettings {
    /// Maximum transmission unit.
    pub mtu: Option<u32>,
    /// Transmission interval, in milliseconds.
    pub tti: Option<u32>,
    /// Uplink capacity, in MB/s.
    pub uplink_capacity: Option<u32>,
    /// Downlink capacity, in MB/s.
    pub downlink_capacity: Option<u32>,
    /// Congestion control.
    pub congestion: Option<bool>,
    /// Read buffer, in MB.
    pub read_buffer_size: Option<u32>,
    /// Write buffer, in MB.
    pub write_buffer_size: Option<u32>,
    /// Header obfuscation.
    pub header: Option<KcpHeader>,
    /// Obfuscation seed.
    pub seed: Option<String>,
}

/// Header obfuscation of the mKCP transport.
#[derive(Debug, Clone)]
pub struct KcpHeader {
    /// Kind of obfuscation.
    pub header_type: String,
}

/// Settings of the QUIC transport.
#[derive(Debug, Clone, Default)]
pub struct QuicSettings {
    /// Cipher: `none`, `aes-128-gcm` or `chacha20-poly1305`.
    pub security: Option<String>,
    /// Cipher key.
    pub key: Option<String>,
    /// Header obfuscation.
    pub header: Option<QuicHeader>,
}

/// Header obfuscation of the QUIC transport.
#[derive(Debug, Clone)]
pub struct QuicHeader {
    /// Kind of obfuscation.
    pub header_type: String,
}

/// Settings of the HTTP upgrade transport.
#[derive(Debug, Clone, Default)]
pub struct HttpUpgradeSettings {
    /// Accept the PROXY protocol.
    pub accept_proxy_protocol: Option<bool>,
    /// Request path.
    pub path: Option<String>,
    /// Host name.
    pub host: Option<String>,
    /// Extra request headers.
    pub headers: Option<Vec<(String, String)>>,
}

/// TLS settings of a stream.
#[derive(Debug, Clone, Default)]
pub struct TlsSettings {
    /// Server name indication.
    pub server_name: Option<String>,
    /// ALPN protocols.
    pub alpn: Option<Vec<String>>,
    /// Certificates to present.
    pub certificates: Option<Vec<Certificate>>,
    /// Ignore the system's root certificates.
    pub disable_system_root: Option<bool>,
    /// Resume sessions.
    pub enable_session_resumption: Option<bool>,
    /// Client fingerprint to imitate.
    pub fingerprint: Option<String>,
    /// Accept certificates that do not verify.
    pub allow_insecure: Option<bool>,
    /// SHA-256 hashes of accepted certificate chains.
    pub pinned_peer_certificate_chain_sha256: Option<Vec<String>>,
    /// Lowest TLS version.
    pub min_version: Option<String>,
    /// Highest TLS version.
    pub max_version: Option<String>,
    /// Cipher suites.
    pub cipher_suites: Option<String>,
}

/// A certificate of a TLS stream.
#[derive(Debug, Clone)]
pub struct Certificate {
    /// Use: `encipherment`, `verify` or `issue`.
    pub usage: Option<String>,
    /// Path of the certificate file.
    pub certificate_file: Option<String>,
    /// Path of the key file.
    pub key_file: Option<String>,
    /// Certificate, as PEM lines.
    pub certificate: Option<Vec<String>>,
    /// Key, as PEM lines.
    pub key: Option<Vec<String>>,
    /// Seconds between OCSP staple refreshes.
    pub ocsp_stapling: Option<u32>,
    /// Load the files once only.
    pub one_time_loading: Option<bool>,
}

/// Reality settings of a stream.
#[derive(Debug, Clone, Default)]
pub struct RealitySettings {
    /// Print debug output.
    pub show: Option<bool>,
    /// Destination to borrow the handshake from; required.
    pub dest: Option<String>,
    /// PROXY protocol version.
    pub xver: Option<u8>,
    /// Accepted server names; required.
    pub server_names: Option<Vec<String>>,
    /// Private key; required.
    pub private_key: Option<String>,
    /// Lowest client version.
    pub min_client_ver: Option<String>,
    /// Highest client version.
    pub max_client_ver: Option<String>,
    /// Largest clock difference, in milliseconds.
    pub max_time_diff: Option<u64>,
    /// Accepted short ids; required.
    pub short_ids: Option<Vec<String>>,
    /// Client fingerprint.
    pub fingerprint: Option<String>,
    /// Server port.
    pub server_port: Option<u16>,
    /// Public key, for clients.
    pub public_key: Option<String>,
    /// Spider path.
    pub spider_x: Option<String>,
}

/// Socket options of a stream.
#[derive(Debug, Clone, Default)]
pub struct Sockopt {
    /// `SO_MARK` value.
    pub mark: Option<u32>,
    /// TCP fast open.
    pub tcp_fast_open: Option<bool>,
    /// Transparent proxy mode: `redirect`, `tproxy` or `off`.
    pub tproxy: Option<String>,
    /// Name resolution: `AsIs`, `UseIP`, `UseIPv4` or `UseIPv6`.
    pub domain_strategy: Option<String>,
    /// Outbound to dial through.
    pub dialer_proxy: Option<String>,
    /// Accept the PROXY protocol.
    pub accept_proxy_protocol: Option<bool>,
    /// Seconds between keep-alive probes.
    pub tcp_keep_alive_interval: Option<u32>,
    /// Idle seconds before the first probe.
    pub tcp_keep_alive_idle: Option<u32>,
    /// TCP user timeout, in milliseconds.
    pub tcp_user_timeout: Option<u32>,
    /// Congestion control algorithm.
    pub tcp_congestion: Option<String>,
    /// Network interface to bind.
    pub interface: Option<String>,
    /// IPv6 only.
    pub v6only: Option<bool>,
    /// Window clamp.
    pub tcp_window_clamp: Option<u32>,
    /// Multipath TCP.
    pub tcp_mptcp: Option<bool>,
    /// Disable Nagle's algorithm.
    pub tcp_no_delay: Option<bool>,
    /// Maximum segment size.
    pub tcp_max_seg: Option<u32>,
}

impl ToJson for StreamSettings {
    open spec fn json(&self) -> Json {
        Json::empty_object()
            .with_optional("network"@, json_opt_str(self.network))
            .with_optional("security"@, json_opt_str(self.security))
            .with_optional("tcpSettings"@, json_opt(self.tcp_settings))
            .with_optional("wsSettings"@, json_opt(self.ws_settings))
            .with_optional("httpSettings"@, json_opt(self.http_settings))
            .with_optional("grpcSettings"@, json_opt(self.grpc_settings))
            .with_optional("xhttpSettings"@, json_opt(self.xhttp_settings))
            .with_optional("kcpSettings"@, json_opt(self.kcp_settings))
            .with_optional("quicSettings"@, json_opt(self.quic_settings))
            .with_optional("httpupgradeSettings"@, json_opt(self.httpupgrade_settings))
            .with_optional("tlsSettings"@, json_opt(self.tls_settings))
            .with_optional("realitySettings"@, json_opt(self.reality_settings))
            .with_optional("sockopt"@, json_opt(self.sockopt))
    }

    fn to_json_value(&self) -> (v: Value) {
        let mut out = empty_object();
        put_opt_str(&mut out, "network", &self.network);
        put_opt_str(&mut out, "security", &self.security);
        put_opt_json(&mut out, "tcpSettings", &self.tcp_settings);
        put_opt_json(&mut out, "wsSettings", &self.ws_settings);
        put_opt_json(&mut out, "httpSettings", &self.http_settings);
        put_opt_json(&mut out, "grpcSettings", &self.grpc_settings);
        put_opt_json(&mut out, "xhttpSettings", &self.xhttp_settings);
        put_opt_json(&mut out, "kcpSettings", &self.kcp_settings);
        put_opt_json(&mut out, "quicSettings", &self.quic_settings);
        put_opt_json(&mut out, "httpupgradeSettings", &self.httpupgrade_settings);
        put_opt_json(&mut out, "tlsSettings", &self.tls_settings);
        put_opt_json(&mut out, "realitySettings", &self.reality_settings);
        put_opt_json(&mut out, "sockopt", &self.sockopt);
        out
    }
}

impl ToJson for TcpSettings {
    open spec fn json(&self) -> Json {
        Json::empty_object()
            .with_optional("acceptProxyProtocol"@, json_opt_bool(self.accept_proxy_protocol))
            .with_optional("header"@, json_opt(self.header))
    }

    fn to_json_value(&self) -> (v: Value) {
        let mut out = empty_object();
        put_opt_bool(&mut out, "acceptProxyProtocol", self.accept_proxy_protocol);
        put_opt_json(&mut out, "header", &self.header);
        out
    }
}

impl ToJson for TcpHeader {
    open spec fn json(&self) -> Json {
        Json::empty_object()
            .with("type"@, Json::Str(self.header_type@))
            .with_optional("request"@, json_opt(self.request))
            .with_optional("response"@, json_opt(self.response))
    }

    fn to_json_value(&self) -> (v: Value) {
        let mut out = empty_object();
        put_str(&mut out, "type", self.header_type.as_str());
        put_opt_json(&mut out, "request", &self.request);
        put_opt_json(&mut out, "response", &self.response);
        out
    }
}

impl ToJson for HttpRequest {
    open spec fn json(&self) -> Json {
        Json::empty_object()
            .with("version"@, Json::Str(self.version@))
            .with("method"@, Json::Str(self.method@))
            .with("path"@, json_strings(self.path@))
            .with("headers"@, json_named_lists(self.headers@))
    }

    fn to_json_value(&self) -> (v: Value) {
        let mut out = empty_object();
        put_str(&mut out, "version", self.version.as_str());
        put_str(&mut out, "method", self.method.as_str());
        put(&mut out, "path", strings_value(&self.path));
        put(&mut out, "headers", named_lists_value(&self.headers));
        out
    }
}

impl ToJson for HttpResponse {
    open spec fn json(&self) -> Json {
        Json::empty_object()
            .with("version"@, Json::Str(self.version@))
            .with("status"@, Json::Str(self.status@))
            .with("reason"@, Json::Str(self.reason@))
            .with("headers"@, json_named_lists(self.headers@))
    }

    fn to_json_value(&self) -> (v: Value) {
        let mut out = empty_object();
        put_str(&mut out, "version", self.version.as_str());
        put_str(&mut out, "status", self.status.as_str());
        put_str(&mut out, "reason", self.reason.as_str());
        put(&mut out, "headers", named_lists_value(&self.headers));
        out
    }
}

impl ToJson for WsSettings {
    open spec fn json(&self) -> Json {
        Json::empty_object()
            .with_optional("acceptProxyProtocol"@, json_opt_bool(self.accept_proxy_protocol))
            .with_optional("path"@, json_opt_str(self.path))
            .with_optional("headers"@, json_opt_named_strings(self.headers))
            .with_optional("maxEarlyData"@, json_opt_u32(self.max_early_data))
            .with_optional("earlyDataHeaderName"@, json_opt_str(self.early_data_header_name))
    }

    fn to_json_value(&self) -> (v: Value) {
        let mut out = empty_object();
        put_opt_bool(&mut out, "acceptProxyProtocol", self.accept_proxy_protocol);
        put_opt_str(&mut out, "path", &self.path);
        put_opt_named_strings(&mut out, "headers", &self.headers);
        put_opt_u32(&mut out, "maxEarlyData", self.max_early_data);
        put_opt_str(&mut out, "earlyDataHeaderName", &self.early_data_header_name);
        out
    }
}

impl ToJson for HttpSettings {
    open spec fn json(&self) -> Json {
        Json::empty_object()
            .with_optional("host"@, json_opt_strings(self.host))
            .with_optional("path"@, json_opt_str(self.path))
            .with_optional("readIdleTimeout"@, json_opt_u32(self.read_idle_timeout))
            .with_optional("healthCheckTimeout"@, json_opt_u32(self.health_check_timeout))
    }

    fn to_json_value(&self) -> (v: Value) {
        let mut out = empty_object();
        put_opt_strings(&mut out, "host", &self.host);
        put_opt_str(&mut out, "path", &self.path);
        put_opt_u32(&mut out, "readIdleTimeout", self.read_idle_timeout);
        put_opt_u32(&mut out, "healthCheckTimeout", self.health_check_timeout);
        out
    }
}

impl ToJson for GrpcSettings {
    open spec fn json(&self) -> Json {
        Json::empty_object()
            .with_optional("serviceName"@, json_opt_str(self.service_name))
            .with_optional("multiMode"@, json_opt_bool(self.multi_mode))
            .with_optional("idleTimeout"@, json_opt_u32(self.idle_timeout))
            .with_optional("healthCheckTimeout"@, json_opt_u32(self.health_check_timeout))
            .with_optional("permitWithoutStream"@, json_opt_bool(self.permit_without_stream))
            .with_optional("initialWindowsSize"@, json_opt_u32(self.initial_windows_size))
    }

    fn to_json_value(&self) -> (v: Value) {
        let mut out = empty_object();
        put_opt_str(&mut out, "serviceName", &self.service_name);
        put_opt_bool(&mut out, "multiMode", self.multi_mode);
        put_opt_u32(&mut out, "idleTimeout", self.idle_timeout);
        put_opt_u32(&mut out, "healthCheckTimeout", self.health_check_timeout);
        put_opt_bool(&mut out, "permitWithoutStream", self.permit_without_stream);
        put_opt_u32(&mut out, "initialWindowsSize", self.initial_windows_size);
        out
    }
}

impl ToJson for XhttpSettings {
    open spec fn json(&self) -> Json {
        Json::empty_object()
            .with_optional("mode"@, json_opt_str(self.mode))
            .with_optional("path"@, json_opt_str(self.path))
            .with_optional("host"@, json_opt_str(self.host))
            .with_optional("extra"@, json_opt_named_values(self.extra))
    }

    fn to_json_value(&self) -> (v: Value) {
        let mut out = empty_object();
        put_opt_str(&mut out, "mode", &self.mode);
        put_opt_str(&mut out, "path", &self.path);
        put_opt_str(&mut out, "host", &self.host);
        put_opt_named_values(&mut out, "extra", &self.extra);
        out
    }
}

impl ToJson for KcpSettings {
    open spec fn json(&self) -> Json {
        Json::empty_object()
            .with_optional("mtu"@, json_opt_u32(self.mtu))
            .with_optional("tti"@, json_opt_u32(self.tti))
            .with_optional("uplinkCapacity"@, json_opt_u32(self.uplink_capacity))
            .with_optional("downlinkCapacity"@, json_opt_u32(self.downlink_capacity))
            .with_optional("congestion"@, json_opt_bool(self.congestion))
            .with_optional("readBufferSize"@, json_opt_u32(self.read_buffer_size))
            .with_optional("writeBufferSize"@, json_opt_u32(self.write_buffer_size))
            .with_optional("header"@, json_opt(self.header))
            .with_optional("seed"@, json_opt_str(self.seed))
    }

    fn to_json_value(&self) -> (v: Value) {
        let mut out = empty_object();
        put_opt_u32(&mut out, "mtu", self.mtu);
        put_opt_u32(&mut out, "tti", self.tti);
        put_opt_u32(&mut out, "uplinkCapacity", self.uplink_capacity);
        put_opt_u32(&mut out, "downlinkCapacity", self.downlink_capacity);
        put_opt_bool(&mut out, "congestion", self.congestion);
        put_opt_u32(&mut out, "readBufferSize", self.read_buffer_size);
        put_opt_u32(&mut out, "writeBufferSize", self.write_buffer_size);
        put_opt_json(&mut out, "header", &self.header);
        put_opt_str(&mut out, "seed", &self.seed);
        out
    }
}

impl ToJson for KcpHeader {
    open spec fn json(&self) -> Json {
        Json::empty_object()
            .with("type"@, Json::Str(self.header_type@))
    }

    fn to_json_value(&self) -> (v: Value) {
        let mut out = empty_object();
        put_str(&mut out, "type", self.header_type.as_str());
        out
    }
}

impl ToJson for QuicSettings {
    open spec fn json(&self) -> Json {
        Json::empty_object()
            .with_optional("security"@, json_opt_str(self.security))
            .with_optional("key"@, json_opt_str(self.key))
            .with_optional("header"@, json_opt(self.header))
    }

    fn to_json_value(&self) -> (v: Value) {
        let mut out = empty_object();
        put_opt_str(&mut out, "security", &self.security);
        put_opt_str(&mut out, "key", &self.key);
        put_opt_json(&mut out, "header", &self.header);
        out
    }
}

impl ToJson for QuicHeader {
    open spec fn json(&self) -> Json {
        Json::empty_object()
            .with("type"@, Json::Str(self.header_type@))
    }

    fn to_json_value(&self) -> (v: Value) {
        let mut out = empty_object();
        put_str(&mut out, "type", self.header_type.as_str());
        out
    }
}

impl ToJson for HttpUpgradeSettings {
    open spec fn json(&self) -> Json {
        Json::empty_object()
            .with_optional("acceptProxyProtocol"@, json_opt_bool(self.accept_proxy_protocol))
            .with_optional("path"@, json_opt_str(self.path))
            .with_optional("host"@, json_opt_str(self.host))
            .with_optional("headers"@, json_opt_named_strings(self.headers))
    }

    fn to_json_value(&self) -> (v: Value) {
        let mut out = empty_object();
        put_opt_bool(&mut out, "acceptProxyProtocol", self.accept_proxy_protocol);
        put_opt_str(&mut out, "path", &self.path);
        put_opt_str(&mut out, "host", &self.host);
        put_opt_named_strings(&mut out, "headers", &self.headers);
        out
    }
}

impl ToJson for TlsSettings {
    open spec fn json(&self) -> Json {
        Json::empty_object()
            .with_optional("serverName"@, json_opt_str(self.server_name))
            .with_optional("alpn"@, json_opt_strings(self.alpn))
            .with_optional("certificates"@, json_opt_list(self.certificates))
            .with_optional("disableSystemRoot"@, json_opt_bool(self.disable_system_root))
            .with_optional("enableSessionResumption"@, json_opt_bool(self.enable_session_resumption))
            .with_optional("fingerprint"@, json_opt_str(self.fingerprint))
            .with_optional("allowInsecure"@, json_opt_bool(self.allow_insecure))
            .with_optional("pinnedPeerCertificateChainSha256"@, json_opt_strings(self.pinned_peer_certificate_chain_sha256))
            .with_optional("minVersion"@, json_opt_str(self.min_version))
            .with_optional("maxVersion"@, json_opt_str(self.max_version))
            .with_optional("cipherSuites"@, json_opt_str(self.cipher_suites))
    }

    fn to_json_value(&self) -> (v: Value) {
        let mut out = empty_object();
        put_opt_str(&mut out, "serverName", &self.server_name);
        put_opt_strings(&mut out, "alpn", &self.alpn);
        put_opt_list(&mut out, "certificates", &self.certificates);
        put_opt_bool(&mut out, "disableSystemRoot", self.disable_system_root);
        put_opt_bool(&mut out, "enableSessionResumption", self.enable_session_resumption);
        put_opt_str(&mut out, "fingerprint", &self.fingerprint);
        put_opt_bool(&mut out, "allowInsecure", self.allow_insecure);
        put_opt_strings(&mut out, "pinnedPeerCertificateChainSha256", &self.pinned_peer_certificate_chain_sha256);
        put_opt_str(&mut out, "minVersion", &self.min_version);
        put_opt_str(&mut out, "maxVersion", &self.max_version);
        put_opt_str(&mut out, "cipherSuites", &self.cipher_suites);
        out
    }
}

impl ToJson for Certificate {
    open spec fn json(&self) -> Json {
        Json::empty_object()
            .with_optional("usage"@, json_opt_str(self.usage))
            .with_optional("certificateFile"@, json_opt_str(self.certificate_file))
            .with_optional("keyFile"@, json_opt_str(self.key_file))
            .with_optional("certificate"@, json_opt_strings(self.certificate))
            .with_optional("key"@, json_opt_strings(self.key))
            .with_optional("ocspStapling"@, json_opt_u32(self.ocsp_stapling))
            .with_optional("oneTimeLoading"@, json_opt_bool(self.one_time_loading))
    }

    fn to_json_value(&self) -> (v: Value) {
        let mut out = empty_object();
        put_opt_str(&mut out, "usage", &self.usage);
        put_opt_str(&mut out, "certificateFile", &self.certificate_file);
        put_opt_str(&mut out, "keyFile", &self.key_file);
        put_opt_strings(&mut out, "certificate", &self.certificate);
        put_opt_strings(&mut out, "key", &self.key);
        put_opt_u32(&mut out, "ocspStapling", self.ocsp_stapling);
        put_opt_bool(&mut out, "oneTimeLoading", self.one_time_loading);
        out
    }
}

impl ToJson for RealitySettings {
    open spec fn json(&self) -> Json {
        Json::empty_object()
            .with_optional("show"@, json_opt_bool(self.show))
            .with_optional("dest"@, json_opt_str(self.dest))
            .with_optional("xver"@, json_opt_u8(self.xver))
            .with_optional("serverNames"@, json_opt_strings(self.server_names))
            .with_optional("privateKey"@, json_opt_str(self.private_key))
            .with_optional("minClientVer"@, json_opt_str(self.min_client_ver))
            .with_optional("maxClientVer"@, json_opt_str(self.max_client_ver))
            .with_optional("maxTimeDiff"@, json_opt_u64(self.max_time_diff))
            .with_optional("shortIds"@, json_opt_strings(self.short_ids))
            .with_optional("fingerprint"@, json_opt_str(self.fingerprint))
            .with_optional("serverPort"@, json_opt_u16(self.server_port))
            .with_optional("publicKey"@, json_opt_str(self.public_key))
            .with_optional("spiderX"@, json_opt_str(self.spider_x))
    }

    fn to_json_value(&self) -> (v: Value) {
        let mut out = empty_object();
        put_opt_bool(&mut out, "show", self.show);
        put_opt_str(&mut out, "dest", &self.dest);
        put_opt_u8(&mut out, "xver", self.xver);
        put_opt_strings(&mut out, "serverNames", &self.server_names);
        put_opt_str(&mut out, "privateKey", &self.private_key);
        put_opt_str(&mut out, "minClientVer", &self.min_client_ver);
        put_opt_str(&mut out, "maxClientVer", &self.max_client_ver);
        put_opt_u64(&mut out, "maxTimeDiff", self.max_time_diff);
        put_opt_strings(&mut out, "shortIds", &self.short_ids);
        put_opt_str(&mut out, "fingerprint", &self.fingerprint);
        put_opt_u16(&mut out, "serverPort", self.server_port);
        put_opt_str(&mut out, "publicKey", &self.public_key);
        put_opt_str(&mut out, "spiderX", &self.spider_x);
        out
    }
}

impl ToJson for Sockopt {
    open spec fn json(&self) -> Json {
        Json::empty_object()
            .with_optional("mark"@, json_opt_u32(self.mark))
            .with_optional("tcpFastOpen"@, json_opt_bool(self.tcp_fast_open))
            .with_optional("tproxy"@, json_opt_str(self.tproxy))
            .with_optional("domainStrategy"@, json_opt_str(self.domain_strategy))
            .with_optional("dialerProxy"@, json_opt_str(self.dialer_proxy))
            .with_optional("acceptProxyProtocol"@, json_opt_bool(self.accept_proxy_protocol))
            .with_optional("tcpKeepAliveInterval"@, json_opt_u32(self.tcp_keep_alive_interval))
            .with_optional("tcpKeepAliveIdle"@, json_opt_u32(self.tcp_keep_alive_idle))
            .with_optional("tcpUserTimeout"@, json_opt_u32(self.tcp_user_timeout))
            .with_optional("tcpCongestion"@, json_opt_str(self.tcp_congestion))
            .with_optional("interface"@, json_opt_str(self.interface))
            .with_optional("v6only"@, json_opt_bool(self.v6only))
            .with_optional("tcpWindowClamp"@, json_opt_u32(self.tcp_window_clamp))
            .with_optional("tcpMptcp"@, json_opt_bool(self.tcp_mptcp))
            .with_optional("tcpNoDelay"@, json_opt_bool(self.tcp_no_delay))
            .with_optional("tcpMaxSeg"@, json_opt_u32(self.tcp_max_seg))
    }

    fn to_json_value(&self) -> (v: Value) {
        let mut out = empty_object();
        put_opt_u32(&mut out, "mark", self.mark);
        put_opt_bool(&mut out, "tcpFastOpen", self.tcp_fast_open);
        put_opt_str(&mut out, "tproxy", &self.tproxy);
        put_opt_str(&mut out, "domainStrategy", &self.domain_strategy);
        put_opt_str(&mut out, "dialerProxy", &self.dialer_proxy);
        put_opt_bool(&mut out, "acceptProxyProtocol", self.accept_proxy_protocol);
        put_opt_u32(&mut out, "tcpKeepAliveInterval", self.tcp_keep_alive_interval);
        put_opt_u32(&mut out, "tcpKeepAliveIdle", self.tcp_keep_alive_idle);
        put_opt_u32(&mut out, "tcpUserTimeout", self.tcp_user_timeout);
        put_opt_str(&mut out, "tcpCongestion", &self.tcp_congestion);
        put_opt_str(&mut out, "interface", &self.interface);
        put_opt_bool(&mut out, "v6only", self.v6only);
        put_opt_u32(&mut out, "tcpWindowClamp", self.tcp_window_clamp);
        put_opt_bool(&mut out, "tcpMptcp", self.tcp_mptcp);
        put_opt_bool(&mut out, "tcpNoDelay", self.tcp_no_delay);
        put_opt_u32(&mut out, "tcpMaxSeg", self.tcp_max_seg);
        out
    }
}

impl HttpRequest {
    /// Whether the header table holds each name once.
    pub open spec fn well_formed(&self) -> bool {
        names_distinct(self.headers@)
    }

    /// Checks [`HttpRequest::well_formed`].
    pub fn is_well_formed(&self) -> (ok: bool)
        ensures
            ok == self.well_formed(),
    {
        has_distinct_names(&self.headers)
    }
}

impl HttpResponse {
    /// Whether the header table holds each name once.
    pub open spec fn well_formed(&self) -> bool {
        names_distinct(self.headers@)
    }

    /// Checks [`HttpResponse::well_formed`].
    pub fn is_well_formed(&self) -> (ok: bool)
        ensures
            ok == self.well_formed(),
    {
        has_distinct_names(&self.headers)
    }
}

impl WsSettings {
    /// Whether the header table holds each name once.
    pub open spec fn well_formed(&self) -> bool {
        opt_names_distinct(self.headers)
    }

    /// Checks [`WsSettings::well_formed`].
    pub fn is_well_formed(&self) -> (ok: bool)
        ensures
            ok == self.well_formed(),
    {
        has_distinct_names_opt(&self.headers)
    }
}

impl HttpUpgradeSettings {
    /// Whether the header table holds each name once.
    pub open spec fn well_formed(&self) -> bool {
        opt_names_distinct(self.headers)
    }

    /// Checks [`HttpUpgradeSettings::well_formed`].
    pub fn is_well_formed(&self) -> (ok: bool)
        ensures
            ok == self.well_formed(),
    {
        has_distinct_names_opt(&self.headers)
    }
}

impl XhttpSettings {
    /// Whether the table of further settings holds each name once.
    pub open spec fn well_formed(&self) -> bool {
        opt_names_distinct(self.extra)
    }

    /// Checks [`XhttpSettings::well_formed`].
    pub fn is_well_formed(&self) -> (ok: bool)
        ensures
            ok == self.well_formed(),
    {
        has_distinct_names_opt(&self.extra)
    }
}

/// Whether an optional text is there and is `name`.
fn names(o: &Option<String>, name: &str) -> (r: bool)
    ensures
        r == (*o matches Some(s) && s@ == name@),
{
    match o {
        Some(s) => str_eq(s.as_str(), name),
        None => false,
    }
}

/// Whether an optional string is there and has at least one character.
pub open spec fn filled_text(o: Option<String>) -> bool {
    o matches Some(s) && s@.len() > 0
}

/// Whether an optional list is there and has at least one item.
pub open spec fn filled_list(o: Option<Vec<String>>) -> bool {
    o matches Some(v) && v@.len() > 0
}

impl RealitySettings {
    /// Whether the four required fields are there and none is empty:
    /// `dest`, `serverNames`, `privateKey` and `shortIds`.
    pub open spec fn complete(&self) -> bool {
        &&& filled_text(self.dest)
        &&& filled_list(self.server_names)
        &&& filled_text(self.private_key)
        &&& filled_list(self.short_ids)
    }

    /// Checks [`RealitySettings::complete`].
    pub fn is_complete(&self) -> (ok: bool)
        ensures
            ok == self.complete(),
    {
        let dest = match &self.dest {
            Some(s) => !s.as_str().is_empty(),
            None => false,
        };
        let names = match &self.server_names {
            Some(v) => v.len() > 0,
            None => false,
        };
        let key = match &self.private_key {
            Some(s) => !s.as_str().is_empty(),
            None => false,
        };
        let ids = match &self.short_ids {
            Some(v) => v.len() > 0,
            None => false,
        };
        dest && names && key && ids
    }
}

impl StreamSettings {
    /// Whether the security mode is one the engine knows and has what it
    /// needs: `tls` its TLS settings, `reality` complete Reality settings.
    /// No mode at all counts as `none`.
    pub open spec fn well_formed(&self) -> bool {
        match self.security {
            None => true,
            Some(mode) => if mode@ == "none"@ {
                true
            } else if mode@ == "tls"@ {
                self.tls_settings is Some
            } else if mode@ == "reality"@ {
                self.reality_settings matches Some(r) && r.complete()
            } else {
                false
            },
        }
    }

    /// Whether `network` names the transport `name`.
    pub open spec fn network_is(&self, name: Seq<char>) -> bool {
        self.network matches Some(n) && n@ == name
    }

    /// Whether `security` names the mode `name`.
    pub open spec fn security_is(&self, name: Seq<char>) -> bool {
        self.security matches Some(s) && s@ == name
    }

    /// Whether every settings block that is filled in belongs to the
    /// transport that `network` names, and every security block to the mode
    /// that `security` names. As the names differ, at most one transport
    /// block and at most one security block is then filled in.
    pub open spec fn blocks_match(&self) -> bool {
        &&& self.tcp_settings is Some ==> self.network_is("tcp"@)
        &&& self.ws_settings is Some ==> self.network_is("ws"@)
        &&& self.http_settings is Some ==> self.network_is("http2"@)
        &&& self.grpc_settings is Some ==> self.network_is("grpc"@)
        &&& self.xhttp_settings is Some ==> self.network_is("xhttp"@)
        &&& self.kcp_settings is Some ==> self.network_is("kcp"@)
        &&& self.quic_settings is Some ==> self.network_is("quic"@)
        &&& self.httpupgrade_settings is Some ==> self.network_is("httpUpgrade"@)
        &&& self.tls_settings is Some ==> self.security_is("tls"@)
        &&& self.reality_settings is Some ==> self.security_is("reality"@)
    }

    /// Checks [`StreamSettings::blocks_match`].
    pub fn has_matching_blocks(&self) -> (ok: bool)
        ensures
            ok == self.blocks_match(),
    {
        (self.tcp_settings.is_none() || names(&self.network, "tcp")) && (
        self.ws_settings.is_none() || names(&self.network, "ws")) && (
        self.http_settings.is_none() || names(&self.network, "http2")) && (
        self.grpc_settings.is_none() || names(&self.network, "grpc")) && (
        self.xhttp_settings.is_none() || names(&self.network, "xhttp")) && (
        self.kcp_settings.is_none() || names(&self.network, "kcp")) && (
        self.quic_settings.is_none() || names(&self.network, "quic")) && (
        self.httpupgrade_settings.is_none() || names(&self.network, "httpUpgrade")) && (
        self.tls_settings.is_none() || names(&self.security, "tls")) && (
        self.reality_settings.is_none() || names(&self.security, "reality"))
    }

    /// Checks [`StreamSettings::well_formed`].
    pub fn is_well_formed(&self) -> (ok: bool)
        ensures
            ok == self.well_formed(),
    {
        match &self.security {
            None => true,
            Some(mode) => {
                if str_eq(mode.as_str(), "none") {
                    true
                } else if str_eq(mode.as_str(), "tls") {
                    self.tls_settings.is_some()
                } else if str_eq(mode.as_str(), "reality") {
                    match &self.reality_settings {
                        Some(r) => r.is_complete(),
                        None => false,
                    }
                } else {
                    false
                }
            },
        }
    }
}

} // verus!
