//! The worker's metrics and analytics, fetched from its local HTTP
//! endpoints.
//!
//! The requests run outside the library; what came back — the request error,
//! the response status, the decoded JSON document — is routed and picked
//! apart here.  JSON documents are `serde_json` values, opaque to the
//! contracts: the library carries them through and decides presence and
//! defaults.

use vstd::prelude::*;

verus! {

#[verifier::external_type_specification]
#[verifier::external_body]
pub struct ExValue(serde_json::Value);

/// Relies on `serde_json::Value::get` with a string key: the field of a JSON
/// object under that key, if any, cloned so the caller owns it.
#[verifier::external_body]
fn json_field(v: &serde_json::Value, key: &str) -> (r: Option<serde_json::Value>) {
    v.get(key).cloned()
}

/// Relies on `serde_json::Value::as_str`: the text of a JSON string value,
/// `None` for every other kind of value, owned by the caller.
#[verifier::external_body]
fn json_as_string(v: &serde_json::Value) -> (r: Option<String>) {
    v.as_str().map(String::from)
}

/// Relies on `serde_json::Value::Null` being a plain unit variant: the null
/// JSON value, standing in for an absent field.
#[verifier::external_body]
fn json_null() -> (r: serde_json::Value) {
    serde_json::Value::Null
}

/// The sections of the worker's metrics document, each carried through as
/// the endpoint sent it (null when absent), and the document's timestamp.
pub struct BotMetrics {
    pub counters: serde_json::Value,
    pub histograms: serde_json::Value,
    pub gauges: serde_json::Value,
    pub timestamp: String,
}

/// One analytics report of the worker, as its endpoint describes it.
pub struct AnalyticsSnapshot {
    pub dau: i64,
    pub wau: i64,
    pub mau: i64,
    pub total_users: i64,
    pub total_messages: i64,
    pub total_sessions: i64,
    pub top_commands: serde_json::Value,
    pub recent_users: serde_json::Value,
    pub generated_at: String,
}

/// Picks the metrics sections out of the decoded metrics document: each
/// section as sent, null when absent, and the timestamp's text, empty when
/// the field is absent or not a string.  The document itself is opaque, so
/// the exact contract sits on `assemble_metrics`, which takes what the
/// wrappers yielded for the four fields.
pub fn select_metrics(v: &serde_json::Value) -> BotMetrics {
    assemble_metrics(
        json_field(v, "counters"),
        json_field(v, "histograms"),
        json_field(v, "gauges"),
        match json_field(v, "timestamp") {
            Some(t) => json_as_string(&t),
            None => None,
        },
    )
}

/// Builds the metrics report from what the document yielded for its four
/// fields: a present section is carried through unchanged (an absent one
/// becomes null), and the timestamp is the field's text, empty when the
/// field was absent or not a string.
pub fn assemble_metrics(
    counters: Option<serde_json::Value>,
    histograms: Option<serde_json::Value>,
    gauges: Option<serde_json::Value>,
    timestamp: Option<String>,
) -> (r: BotMetrics)
    ensures
        counters matches Some(v) ==> r.counters == v,
        histograms matches Some(v) ==> r.histograms == v,
        gauges matches Some(v) ==> r.gauges == v,
        timestamp matches Some(t) ==> r.timestamp == t,
        timestamp is None ==> r.timestamp@.len() == 0,
{
    BotMetrics {
        counters: field_or_null(counters),
        histograms: field_or_null(histograms),
        gauges: field_or_null(gauges),
        timestamp: string_or_empty(timestamp),
    }
}

/// A field the document yielded, carried through unchanged; null when the
/// field was absent.
fn field_or_null(x: Option<serde_json::Value>) -> (r: serde_json::Value)
    ensures
        x matches Some(v) ==> r == v,
{
    match x {
        Some(v) => v,
        None => json_null(),
    }
}

/// The text a field yielded, or empty when it yielded none.
pub fn string_or_empty(s: Option<String>) -> (r: String)
    ensures
        s matches Some(x) ==> r == x,
        s is None ==> r@.len() == 0,
{
    match s {
        Some(x) => x,
        None => String::new(),
    }
}

/// The three endpoints of the worker that the supervisor reads.
#[derive(Clone, Copy, Debug, PartialEq, Eq, Structural)]
pub enum MetricsEndpoint {
    Analytics,
    Metrics,
    ExtendedMetrics,
}

/// What sending one request yielded: the request failed with an error text,
/// or a response arrived with an exit status and its display text.
#[derive(Clone, Debug, PartialEq, Eq)]
pub enum FetchOutcome {
    RequestError(String),
    Response { success: bool, status: String },
}

impl MetricsEndpoint {
    /// The endpoint's URL on the worker's local port.
    pub fn url(&self) -> (r: String)
        ensures
            *self == MetricsEndpoint::Analytics ==> r@ == "http://127.0.0.1:3002/analytics"@,
            *self == MetricsEndpoint::Metrics ==> r@ == "http://127.0.0.1:3002/metrics"@,
            *self == MetricsEndpoint::ExtendedMetrics ==> r@
                == "http://127.0.0.1:3002/metrics/extended"@,
    {
        match self {
            MetricsEndpoint::Analytics => String::from_str("http://127.0.0.1:3002/analytics"),
            MetricsEndpoint::Metrics => String::from_str("http://127.0.0.1:3002/metrics"),
            MetricsEndpoint::ExtendedMetrics => String::from_str(
                "http://127.0.0.1:3002/metrics/extended",
            ),
        }
    }

    /// The error text when the request itself failed.
    pub open spec fn spec_fetch_error(&self, e: Seq<char>) -> Seq<char> {
        match self {
            MetricsEndpoint::Analytics => "Failed to fetch analytics: "@ + e,
            MetricsEndpoint::Metrics => "Failed to fetch metrics: "@ + e,
            MetricsEndpoint::ExtendedMetrics => "Failed to fetch extended metrics: "@ + e,
        }
    }

    /// The error text when the response status was not a success.
    pub open spec fn spec_status_error(&self, status: Seq<char>) -> Seq<char> {
        match self {
            MetricsEndpoint::Analytics => "Analytics endpoint returned status: "@ + status,
            MetricsEndpoint::Metrics => "Metrics endpoint returned status: "@ + status,
            MetricsEndpoint::ExtendedMetrics => "Extended metrics endpoint returned status: "@
                + status,
        }
    }

    /// The error text when the response body was not valid JSON.
    pub open spec fn spec_parse_error(&self, e: Seq<char>) -> Seq<char> {
        match self {
            MetricsEndpoint::Analytics => "Failed to parse analytics JSON: "@ + e,
            MetricsEndpoint::Metrics => "Failed to parse metrics JSON: "@ + e,
            MetricsEndpoint::ExtendedMetrics => "Failed to parse extended metrics JSON: "@ + e,
        }
    }

    /// Renders the error text when the response body was not valid JSON.
    pub fn parse_error(&self, e: &String) -> (r: String)
        ensures
            r@ == self.spec_parse_error(e@),
    {
        match self {
            MetricsEndpoint::Analytics => String::from_str("Failed to parse analytics JSON: ")
                .concat(e.as_str()),
            MetricsEndpoint::Metrics => String::from_str("Failed to parse metrics JSON: ").concat(
                e.as_str(),
            ),
            MetricsEndpoint::ExtendedMetrics => String::from_str(
                "Failed to parse extended metrics JSON: ",
            ).concat(e.as_str()),
        }
    }
}

/// Routes what one request yielded: a request error or a non-success status
/// becomes the endpoint's exact error text, a successful response lets the
/// caller go on to decode the body.
pub fn route_fetch(endpoint: &MetricsEndpoint, outcome: FetchOutcome) -> (r: Result<(), String>)
    ensures
        outcome matches FetchOutcome::RequestError(e) ==> (r matches Err(m) && m@
            == endpoint.spec_fetch_error(e@)),
        outcome matches FetchOutcome::Response { success, status } ==> {
            &&& success ==> r is Ok
            &&& !success ==> (r matches Err(m) && m@ == endpoint.spec_status_error(status@))
        },
{
    match outcome {
        FetchOutcome::RequestError(e) => {
            let m = match endpoint {
                MetricsEndpoint::Analytics => String::from_str(
                    "Failed to fetch analytics: ",
                ).concat(e.as_str()),
                MetricsEndpoint::Metrics => String::from_str("Failed to fetch metrics: ").concat(
                    e.as_str(),
                ),
                MetricsEndpoint::ExtendedMetrics => String::from_str(
                    "Failed to fetch extended metrics: ",
                ).concat(e.as_str()),
            };
            Err(m)
        },
        FetchOutcome::Response { success, status } => {
            if success {
                Ok(())
            } else {
                let m = match endpoint {
                    MetricsEndpoint::Analytics => String::from_str(
                        "Analytics endpoint returned status: ",
                    ).concat(status.as_str()),
                    MetricsEndpoint::Metrics => String::from_str(
                        "Metrics endpoint returned status: ",
                    ).concat(status.as_str()),
                    MetricsEndpoint::ExtendedMetrics => String::from_str(
                        "Extended metrics endpoint returned status: ",
                    ).concat(status.as_str()),
                };
                Err(m)
            }
        },
    }
}

/// What the out-of-band fallback probe of the local health endpoint says:
/// running exactly when a response arrived and its status was a success; a
/// request error is "not running", never an error of the caller's own.
pub fn fallback_probe_running(response_success: Option<bool>) -> (r: bool)
    ensures
        r == (response_success == Some(true)),
{
    match response_success {
        Some(s) => s,
        None => false,
    }
}

} // verus!
