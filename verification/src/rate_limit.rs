//! The rate limit policy.
//!
//! A `rateLimit` node names a limit, a window and a way to identify the
//! client. The policy turns that into one call of the rate service and reads
//! the service's reply. Counting and the penalty box are the service's.

use crate::request::{
    client_ip_text, header, header_or, header_value, or_else, RequestInfo, RequestInfoView,
};
use crate::text::{copy_string, str_eq};
use crate::types::{RateLimitNodeData, RateLimitNodeDataView};
use vstd::prelude::*;

verus! {

/// The span over which the rate service sums a counter.
#[derive(Debug, Clone, Copy, PartialEq, Eq)]
pub enum RateWindow {
    /// One second.
    OneSecond,
    /// Sixty seconds.
    SixtySeconds,
}

/// What the rate service answers.
#[derive(Debug, Clone, Copy, PartialEq, Eq)]
pub enum RateReply {
    /// The key is over its limit, or in the penalty box.
    Exceeded,
    /// The key is within its limit.
    Within,
    /// The service could not be asked or failed.
    Failed,
}

/// Seconds in the penalty box after exceeding an hourly limit.
pub const HOUR_PENALTY_SECS: u64 = 600;

/// Seconds in the penalty box after exceeding any other limit.
pub const PENALTY_SECS: u64 = 120;

/// One call of the rate service: count the request under `key` and test the
/// window's total against `limit`.
#[derive(Debug, Clone, PartialEq, Eq)]
pub struct RateCheck {
    /// The client identifier to count under.
    pub key: String,
    /// What the request adds to the key's counter.
    pub delta: u32,
    /// The span the counter is summed over.
    pub window: RateWindow,
    /// The most requests allowed in the window.
    pub limit: u32,
    /// How long, in seconds, a key that exceeded the limit stays in the penalty
    /// box.
    pub penalty_secs: u64,
}

/// The mathematical view of [`RateCheck`]: texts are sequences of characters.
pub struct RateCheckView {
    pub key: Seq<char>,
    pub delta: u32,
    pub window: RateWindow,
    pub limit: u32,
    pub penalty_secs: u64,
}

impl View for RateCheck {
    type V = RateCheckView;

    open spec fn view(&self) -> RateCheckView {
        RateCheckView {
            key: self.key@,
            delta: self.delta,
            window: self.window,
            limit: self.limit,
            penalty_secs: self.penalty_secs,
        }
    }
}

/// The window that a unit is counted in. An hour is counted in windows of
/// sixty seconds, as is every unit but `second`.
pub open spec fn window_of(unit: Seq<char>) -> RateWindow {
    if unit == "second"@ {
        RateWindow::OneSecond
    } else {
        RateWindow::SixtySeconds
    }
}

/// The limit to hold a window's total against. An hourly limit is spread
/// over sixty windows of a minute; this is an approximation, not an hourly
/// counter.
pub open spec fn window_limit(limit: u32, unit: Seq<char>) -> u32 {
    if unit == "hour"@ {
        limit / 60
    } else {
        limit
    }
}

/// How long, in seconds, a key stays in the penalty box.
pub open spec fn penalty_of(unit: Seq<char>) -> u64 {
    if unit == "hour"@ {
        HOUR_PENALTY_SECS
    } else {
        PENALTY_SECS
    }
}

/// `text`, or `unknown` where there is none.
pub open spec fn or_unknown(text: Option<Seq<char>>) -> Seq<char> {
    match text {
        Some(t) => t,
        None => "unknown"@,
    }
}

/// The client identifier that a rate limit counts under.
pub open spec fn rate_key(data: RateLimitNodeDataView, req: RequestInfoView) -> Seq<char> {
    if data.key_by == "ip"@ {
        or_unknown(client_ip_text(req))
    } else if data.key_by == "fingerprint"@ {
        or_unknown(
            or_else(
                or_else(
                    header_value(req.headers, "fastly-client-ja4"@),
                    header_value(req.headers, "tls-ja4"@),
                ),
                or_else(
                    header_value(req.headers, "fastly-client-ja3-md5"@),
                    header_value(req.headers, "tls-ja3-md5"@),
                ),
            ),
        )
    } else if data.key_by == "header"@ {
        match data.header_name {
            Some(name) => or_unknown(header_value(req.headers, name)),
            None => "unknown"@,
        }
    } else if data.key_by == "path"@ {
        req.path
    } else {
        "unknown"@
    }
}

/// The call of the rate service that a rate limit asks for.
pub open spec fn rate_check_of(data: RateLimitNodeDataView, req: RequestInfoView) -> RateCheckView {
    RateCheckView {
        key: rate_key(data, req),
        delta: 1,
        window: window_of(data.window_unit),
        limit: window_limit(data.limit, data.window_unit),
        penalty_secs: penalty_of(data.window_unit),
    }
}

/// Whether a reply of the rate service means that the limit is exceeded. A
/// failed call does not: the engine fails open.
pub open spec fn reply_exceeded(reply: RateReply) -> bool {
    reply == RateReply::Exceeded
}

fn text_or_unknown(text: Option<&str>) -> (r: String)
    ensures
        r@ == or_unknown(crate::text::opt_str(text)),
{
    match text {
        Some(t) => copy_string(t),
        None => copy_string("unknown"),
    }
}

/// Derives the client identifier that a rate limit counts under.
pub fn get_rate_limit_key(data: &RateLimitNodeData, req: &RequestInfo) -> (r: String)
    ensures
        r@ == rate_key(data@, req@),
{
    if str_eq(data.key_by.as_str(), "ip") {
        match crate::request::client_ip(req) {
            Some(ip) => ip,
            None => copy_string("unknown"),
        }
    } else if str_eq(data.key_by.as_str(), "fingerprint") {
        match header_or(req, "fastly-client-ja4", "tls-ja4") {
            Some(v) => copy_string(v),
            None => text_or_unknown(header_or(req, "fastly-client-ja3-md5", "tls-ja3-md5")),
        }
    } else if str_eq(data.key_by.as_str(), "header") {
        match &data.header_name {
            Some(name) => text_or_unknown(header(req, name.as_str())),
            None => copy_string("unknown"),
        }
    } else if str_eq(data.key_by.as_str(), "path") {
        req.path.clone()
    } else {
        copy_string("unknown")
    }
}

/// Plans the call of the rate service for a rate limit and a request.
pub fn plan_rate_check(data: &RateLimitNodeData, req: &RequestInfo) -> (r: RateCheck)
    ensures
        r@ == rate_check_of(data@, req@),
{
    let key = get_rate_limit_key(data, req);
    let hourly = str_eq(data.window_unit.as_str(), "hour");
    let window = if str_eq(data.window_unit.as_str(), "second") {
        RateWindow::OneSecond
    } else {
        RateWindow::SixtySeconds
    };
    let limit = if hourly {
        data.limit / 60
    } else {
        data.limit
    };
    let penalty_secs = if hourly {
        HOUR_PENALTY_SECS
    } else {
        PENALTY_SECS
    };
    RateCheck { key, delta: 1, window, limit, penalty_secs }
}

/// Reads a reply of the rate service: whether the limit is exceeded.
pub fn is_exceeded(reply: RateReply) -> (r: bool)
    ensures
        r == reply_exceeded(reply),
{
    matches!(reply, RateReply::Exceeded)
}

} // verus!
