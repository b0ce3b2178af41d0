//! Judging whether a site can lend its handshake to a Reality endpoint.
//!
//! The site is asked twice at most: once with TLS 1.3 only, and, if that
//! fails, once more with any version. This module says which address is
//! asked and what the answers mean; asking is the caller's part.

use crate::text::{chars_of, concat};
use vstd::prelude::*;

verus! {

/// A request to judge a site.
#[derive(Debug, Clone)]
pub struct RealityCheckRequest {
    pub domain: String,
}

/// The judgement on a site.
#[derive(Debug, Clone)]
pub struct RealityCheckResponse {
    pub is_valid: bool,
    pub has_tls13: bool,
    pub key_exchange: String,
    pub latency: u128,
    pub message: String,
}

/// A judgement with its texts as characters.
pub struct RealityCheckView {
    pub is_valid: bool,
    pub has_tls13: bool,
    pub key_exchange: Seq<char>,
    pub latency: u128,
    pub message: Seq<char>,
}

impl View for RealityCheckResponse {
    type V = RealityCheckView;

    open spec fn view(&self) -> RealityCheckView {
        RealityCheckView {
            is_valid: self.is_valid,
            has_tls13: self.has_tls13,
            key_exchange: self.key_exchange@,
            latency: self.latency,
            message: self.message@,
        }
    }
}

/// How asking the site ended.
#[derive(Debug, Clone, Copy, PartialEq, Eq, Structural)]
pub enum ProbeOutcome {
    /// The site answered over TLS 1.3.
    Tls13,
    /// The site answered, but not over TLS 1.3.
    OlderTls,
    /// The site did not answer; `timed_out` says whether the first attempt
    /// ran out of time.
    Unreachable { timed_out: bool },
}

/// Where the first `:` stands in `s`, or the length of `s` if there is none.
pub open spec fn colon_position(s: Seq<char>) -> int
    decreases s.len(),
{
    if s.len() == 0 {
        0
    } else if s[0] == ':' {
        0
    } else {
        1 + colon_position(s.drop_first())
    }
}

/// The host of a `host` or `host:port` text: what stands before the first
/// `:`.
pub open spec fn host_text(domain: Seq<char>) -> Seq<char> {
    domain.subrange(0, colon_position(domain))
}

/// The address that is asked: `https://` and the host.
pub open spec fn probe_url_text(domain: Seq<char>) -> Seq<char> {
    "https://"@ + host_text(domain)
}

/// What the answers of the two attempts mean. The second attempt counts
/// only where the first failed.
pub open spec fn outcome_of(first_ok: bool, first_timed_out: bool, second_ok: bool) -> ProbeOutcome {
    if first_ok {
        ProbeOutcome::Tls13
    } else if second_ok {
        ProbeOutcome::OlderTls
    } else {
        ProbeOutcome::Unreachable { timed_out: first_timed_out }
    }
}

/// The judgement that follows from an outcome.
pub open spec fn judgement(outcome: ProbeOutcome, latency: u128) -> RealityCheckView {
    match outcome {
        ProbeOutcome::Tls13 => RealityCheckView {
            is_valid: true,
            has_tls13: true,
            key_exchange: "X25519"@,
            latency,
            message: "目标支持 TLS 1.3 及 X25519 密钥交换"@,
        },
        ProbeOutcome::OlderTls => RealityCheckView {
            is_valid: false,
            has_tls13: false,
            key_exchange: "Unsupported"@,
            latency,
            message: "目标站不支持 TLS 1.3 (仅支持 1.2 或更低版本)"@,
        },
        ProbeOutcome::Unreachable { timed_out } => RealityCheckView {
            is_valid: false,
            has_tls13: false,
            key_exchange: "None"@,
            latency,
            message: "VPS 连接目标站失败: "@ + (if timed_out {
                "请求超时"@
            } else {
                "连接被重置"@
            }) + " (请检查线路质量)"@,
        },
    }
}

proof fn lemma_colon_position(s: Seq<char>, k: int)
    requires
        0 <= k <= s.len(),
        forall|j: int| 0 <= j < k ==> s[j] != ':',
        k == s.len() || s[k] == ':',
    ensures
        colon_position(s) == k,
    decreases s.len(),
{
    if k > 0 {
        lemma_colon_position(s.drop_first(), k - 1);
    }
}

/// The host of a `host` or `host:port` text.
pub fn probe_host(domain: &str) -> (host: String)
    ensures
        host@ == host_text(domain@),
{
    let chars = chars_of(domain);
    let mut k: usize = 0;
    while k < chars.len() && chars[k] != ':'
        invariant
            k <= chars@.len(),
            forall|j: int| 0 <= j < k ==> chars@[j] != ':',
        decreases chars@.len() - k,
    {
        k += 1;
    }
    proof {
        lemma_colon_position(chars@, k as int);
    }
    domain.substring_char(0, k).to_owned()
}

/// The address that is asked.
pub fn probe_url(domain: &str) -> (url: String)
    ensures
        url@ == probe_url_text(domain@),
{
    let host = probe_host(domain);
    concat("https://", host.as_str())
}

/// Says what the answers of the two attempts mean.
pub fn probe_outcome(first_ok: bool, first_timed_out: bool, second_ok: bool) -> (outcome:
    ProbeOutcome)
    ensures
        outcome == outcome_of(first_ok, first_timed_out, second_ok),
{
    if first_ok {
        ProbeOutcome::Tls13
    } else if second_ok {
        ProbeOutcome::OlderTls
    } else {
        ProbeOutcome::Unreachable { timed_out: first_timed_out }
    }
}

/// The judgement on a site, from how asking it ended and how long the first
/// attempt took, in milliseconds.
pub fn check_response(outcome: ProbeOutcome, latency: u128) -> (response: RealityCheckResponse)
    ensures
        response@ == judgement(outcome, latency),
{
    match outcome {
        ProbeOutcome::Tls13 => RealityCheckResponse {
            is_valid: true,
            has_tls13: true,
            key_exchange: "X25519".to_owned(),
            latency,
            message: "目标支持 TLS 1.3 及 X25519 密钥交换".to_owned(),
        },
        ProbeOutcome::OlderTls => RealityCheckResponse {
            is_valid: false,
            has_tls13: false,
            key_exchange: "Unsupported".to_owned(),
            latency,
            message: "目标站不支持 TLS 1.3 (仅支持 1.2 或更低版本)".to_owned(),
        },
        ProbeOutcome::Unreachable { timed_out } => {
            let reason = if timed_out {
                "请求超时"
            } else {
                "连接被重置"
            };
            let mut message = concat("VPS 连接目标站失败: ", reason);
            message.append(" (请检查线路质量)");
            RealityCheckResponse {
                is_valid: false,
                has_tls13: false,
                key_exchange: "None".to_owned(),
                latency,
                message,
            }
        },
    }
}

} // verus!
