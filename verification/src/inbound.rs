//! Endpoint records as the record store holds them.

use crate::json::{json_model, parse_text, parsed_json, Json};
use crate::text::concat;
use serde_json::Value;
use vstd::prelude::*;

verus! {

/// One stored endpoint: a proxy listener with its settings, its traffic
/// counters and its quota.
///
/// `settings`, `stream_settings`, `sniffing` and `allocate` are JSON texts
/// that the record store keeps as they were entered. `total` is the quota in
/// bytes on `up + down`; `0` means there is none.
#[derive(Debug, Clone)]
pub struct Inbound {
    pub id: String,
    pub tag: Option<String>,
    pub protocol: String,
    pub port: u16,
    pub listen: Option<String>,
    pub settings: Option<String>,
    pub stream_settings: Option<String>,
    pub sniffing: Option<String>,
    pub allocate: Option<String>,
    pub enable: bool,
    pub up: u64,
    pub down: u64,
    pub total: u64,
    pub remark: String,
}

/// The JSON value that a stored text denotes. A field that is absent and a
/// text that is not JSON both give `None`.
pub open spec fn blob_json(blob: Option<String>) -> Option<Json> {
    match blob {
        Some(text) => parsed_json(text@),
        None => None,
    }
}

/// What an optional value holds.
pub open spec fn opt_model(v: Option<Value>) -> Option<Json> {
    match v {
        Some(x) => Some(json_model(x)),
        None => None,
    }
}

/// Decodes a stored text. A text that is not JSON is treated as an absent
/// field, never as a failure.
pub fn decode_blob(blob: &Option<String>) -> (v: Option<Value>)
    ensures
        opt_model(v) == blob_json(*blob),
{
    match blob {
        Some(text) => parse_text(text.as_str()),
        None => None,
    }
}

impl Inbound {
    /// The tag under which the engine knows the endpoint: its own, or
    /// `inbound-` followed by the id where it has none.
    pub open spec fn tag_text(&self) -> Seq<char> {
        match self.tag {
            Some(t) => t@,
            None => "inbound-"@ + self.id@,
        }
    }

    /// The tag under which the engine knows the endpoint.
    pub fn resolved_tag(&self) -> (tag: String)
        ensures
            tag@ == self.tag_text(),
    {
        match &self.tag {
            Some(t) => t.clone(),
            None => concat("inbound-", self.id.as_str()),
        }
    }
}

} // verus!
