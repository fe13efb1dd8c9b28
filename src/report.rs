use vstd::prelude::*;
use vstd::string::StringExecFns;

use base64::Engine;

use crate::schema::{
    opt_view, ConfigProbeService, ConfigProbeServiceNode, ConfigProbeServiceReplicaNode,
    ConfigProbeServiceScriptNode, ConfigReport,
};
use crate::status::Status;
use crate::text::{decimal, decimal_string, owned};

verus! {

/// The `User-Agent` every report carries.
pub const REPORT_HTTP_HEADER_USERAGENT: &'static str = "vigil-local/1.0.0";

/// The `Content-Type` of every report body.
pub const REPORT_HTTP_HEADER_CONTENT_TYPE: &'static str = "application/json";

/// Connect, read and write timeout of one delivery attempt, in seconds.
pub const REPORT_HTTP_CLIENT_TIMEOUT_SECONDS: u64 = 10;

/// The JSON string literal for a text: quoted, with JSON escapes.
pub uninterp spec fn json_string_of(s: Seq<char>) -> Seq<char>;

/// Standard base64, padded, of the UTF-8 encoding of a text.
pub uninterp spec fn base64_of(s: Seq<char>) -> Seq<char>;

/// Relies on `serde_json::to_string` applied to a `str`: it writes the
/// string quoted and escaped, and cannot fail for a `str`.
#[verifier::external_body]
fn json_string(s: &str) -> (r: String)
    ensures
        r@ == json_string_of(s@),
{
    serde_json::to_string(s).unwrap_or_default()
}

/// Relies on `base64::Engine::encode` of the `STANDARD` engine: padded
/// standard base64 of the bytes of `s`.
#[verifier::external_body]
fn base64_encode(s: &str) -> (r: String)
    ensures
        r@ == base64_of(s@),
{
    base64::engine::general_purpose::STANDARD.encode(s)
}

/// Who a report is about: a replica or script id and its optional label.
pub struct ReportReplica {
    pub label: Option<String>,
    pub id: String,
}

impl ReportReplica {
    /// The report identity of a polled replica.
    pub fn new_poll(replica: &ConfigProbeServiceReplicaNode) -> (r: ReportReplica)
        ensures
            r.id@ == replica.spec_id(),
            opt_view(r.label) == replica.spec_label(),
    {
        let label = match replica.label() {
            Some(l) => Some(owned(l)),
            None => None,
        };
        ReportReplica { id: owned(replica.id()), label }
    }

    /// The report identity of a script; `id` stands in when the script has
    /// no id of its own.
    pub fn new_script(id: &str, replica: &ConfigProbeServiceScriptNode) -> (r: ReportReplica)
        ensures
            r.id@ == (match replica.spec_id() {
                Some(i) => i,
                None => id@,
            }),
            opt_view(r.label) == replica.spec_label(),
    {
        let label = match replica.label() {
            Some(l) => Some(owned(l)),
            None => None,
        };
        let own_id = match replica.id() {
            Some(i) => owned(i),
            None => owned(id),
        };
        ReportReplica { id: own_id, label }
    }
}

pub open spec fn url_of(endpoint: Seq<char>, path: Seq<char>) -> Seq<char> {
    endpoint + "/"@ + path
}

/// The address of `path` under the report endpoint.
pub fn generate_url(endpoint: &str, path: &str) -> (r: String)
    ensures
        r@ == url_of(endpoint@, path@),
{
    let mut s = owned(endpoint);
    s.append("/");
    s.append(path);
    s
}

pub open spec fn report_path_of(service_id: Seq<char>, node_id: Seq<char>) -> Seq<char> {
    "reporter/"@ + service_id + "/"@ + node_id + "/"@
}

/// The path that receives the reports of one node of one service.
pub fn report_path(service_id: &str, node_id: &str) -> (r: String)
    ensures
        r@ == report_path_of(service_id@, node_id@),
{
    let mut s = owned("reporter/");
    s.append(service_id);
    s.append("/");
    s.append(node_id);
    s.append("/");
    s
}

pub open spec fn authorization_of(token: Seq<char>) -> Seq<char> {
    "Basic "@ + base64_of(":"@ + token)
}

/// HTTP Basic credentials with an empty user name and `token` as password.
pub fn authorization_header(token: &str) -> (r: String)
    ensures
        r@ == authorization_of(token@),
{
    let mut pair = owned(":");
    pair.append(token);
    let mut s = owned("Basic ");
    s.append(base64_encode(pair.as_str()).as_str());
    s
}

pub open spec fn label_field_of(label: Option<Seq<char>>) -> Seq<char> {
    match label {
        Some(l) => ",\"replica_label\":"@ + json_string_of(l),
        None => Seq::empty(),
    }
}

/// The JSON report body: replica id, health word, interval, and the label
/// only when there is one.
pub open spec fn payload_of(
    replica: Seq<char>,
    label: Option<Seq<char>>,
    health: Seq<char>,
    interval: nat,
) -> Seq<char> {
    "{\"replica\":"@ + json_string_of(replica) + ",\"health\":"@ + json_string_of(health)
        + ",\"interval\":"@ + decimal(interval) + label_field_of(label) + "}"@
}

/// The JSON body that reports `status` for `replica`.
pub fn report_payload(replica: &ReportReplica, status: Status, interval: u64) -> (r: String)
    ensures
        r@ == payload_of(replica.id@, opt_view(replica.label), status.spec_as_str(), interval as nat),
{
    let mut s = owned("{\"replica\":");
    s.append(json_string(replica.id.as_str()).as_str());
    s.append(",\"health\":");
    s.append(json_string(status.as_str()).as_str());
    s.append(",\"interval\":");
    s.append(decimal_string(interval).as_str());
    match &replica.label {
        Some(l) => {
            s.append(",\"replica_label\":");
            s.append(json_string(l.as_str()).as_str());
        },
        None => {},
    }
    s.append("}");
    s
}

/// Everything one delivery attempt sends: `POST` to `url` with these
/// headers and `body`.
pub struct ReportRequest {
    pub url: String,
    pub user_agent: String,
    pub authorization: String,
    pub content_type: String,
    pub body: String,
}

impl ReportRequest {
    /// The request is the report of `status` for `replica` of `node` in
    /// `service`, sent to `report`'s endpoint with its token.
    pub open spec fn reports(
        &self,
        report: &ConfigReport,
        service: &ConfigProbeService,
        node: &ConfigProbeServiceNode,
        replica: &ReportReplica,
        status: Status,
        interval: u64,
    ) -> bool {
        &&& self.url@ == url_of(report.endpoint@, report_path_of(service.id@, node.id@))
        &&& self.user_agent@ == REPORT_HTTP_HEADER_USERAGENT@
        &&& self.authorization@ == authorization_of(report.token@)
        &&& self.content_type@ == REPORT_HTTP_HEADER_CONTENT_TYPE@
        &&& self.body@ == payload_of(
            replica.id@,
            opt_view(replica.label),
            status.spec_as_str(),
            interval as nat,
        )
    }
}

/// Builds the request that reports `status` for `replica`.
pub fn report_request(
    report: &ConfigReport,
    service: &ConfigProbeService,
    node: &ConfigProbeServiceNode,
    replica: &ReportReplica,
    status: Status,
    interval: u64,
) -> (r: ReportRequest)
    ensures
        r.reports(report, service, node, replica, status, interval),
{
    let path = report_path(service.id.as_str(), node.id.as_str());
    ReportRequest {
        url: generate_url(report.endpoint.as_str(), path.as_str()),
        user_agent: owned(REPORT_HTTP_HEADER_USERAGENT),
        authorization: authorization_header(report.token.as_str()),
        content_type: owned(REPORT_HTTP_HEADER_CONTENT_TYPE),
        body: report_payload(replica, status, interval),
    }
}

} // verus!
