//! Per-request orchestration: planning a request, shaping the reply after
//! a fetch, resolving the client address candidate, and deciding whether a
//! pageview row is written.
//!
//! These functions carry the whole decision logic of the proxy; the code
//! around them only moves bytes between them and the HTTP server, the
//! object store and the database.

use vstd::prelude::*;
use vstd::string::StrSliceExecFns;
use vstd::string::StringSliceAdditionalSpecFns;
use crate::paths::decoded_path;
use crate::paths::normalized_of;
use crate::paths::pageview_of;
use crate::paths::spec_decoded_path;
use crate::paths::spec_normalized_of;
use crate::paths::spec_pageview_of;
use crate::paths::spec_tenant_of;
use crate::paths::tenant_of;
use crate::policy::is_page;
use crate::policy::policy_of;
use crate::policy::redirect_url;
use crate::policy::spec_extension_of;
use crate::policy::spec_key_of;
use crate::policy::spec_page_ext;
use crate::policy::spec_policy_of;
use crate::policy::spec_redirect_url_of;
use crate::policy::storage_key;
use crate::policy::ContentPolicy;
use crate::text::spec_prefix_before;
use crate::text::spec_trim;
use crate::text::prefix_before;
use crate::text::trim;

verus! {

/// The normalized storage path that a raw request path maps to.
pub open spec fn spec_normalized_path(raw: Seq<char>) -> Seq<char> {
    spec_normalized_of(spec_decoded_path(raw))
}

/// The pageview display path that a raw request path maps to.
pub open spec fn spec_pageview_path(raw: Seq<char>) -> Seq<char> {
    spec_pageview_of(spec_decoded_path(raw))
}

/// The storage key that a request's host and raw path map to.
pub open spec fn spec_storage_key(host: Seq<char>, raw: Seq<char>) -> Seq<char> {
    spec_key_of(spec_tenant_of(host), spec_normalized_path(raw))
}

/// The serve-or-redirect policy that a raw request path maps to.
pub open spec fn spec_request_policy(raw: Seq<char>) -> ContentPolicy {
    spec_policy_of(spec_normalized_path(raw))
}

/// What a request asks the proxy to do next: redirect the client to the
/// public asset host, or fetch an object from storage.
pub enum RouteAction {
    Redirect { location: String },
    Fetch { key: String },
}

/// Everything the proxy derives from a request's host and raw path.
pub struct RequestPlan {
    /// Namespace prefix taken from the host's leftmost label.
    pub tenant: String,
    /// The normalized storage path.
    pub normalized: String,
    /// The display path a pageview record would carry.
    pub pageview_path: String,
    /// Whether the normalized path is an HTML page, whose views are
    /// recorded.
    pub is_page: bool,
    /// The next step: redirect or fetch.
    pub action: RouteAction,
}

/// Derives the full plan for one request from its host header and raw URL
/// path.
pub fn plan_request(host: &str, raw_path: &str) -> (plan: RequestPlan)
    ensures
        plan.tenant@ == spec_tenant_of(host@),
        plan.normalized@ == spec_normalized_path(raw_path@),
        plan.pageview_path@ == spec_pageview_path(raw_path@),
        plan.is_page == spec_page_ext(spec_extension_of(spec_normalized_path(raw_path@))),
        spec_request_policy(raw_path@) == ContentPolicy::Servable ==> (plan.action matches
            RouteAction::Fetch { key } && key@ == spec_storage_key(host@, raw_path@)),
        spec_request_policy(raw_path@) == ContentPolicy::RedirectOnly ==> (plan.action matches
            RouteAction::Redirect { location } && location@ == spec_redirect_url_of(
            spec_tenant_of(host@),
            spec_normalized_path(raw_path@),
        )),
{
    let tenant = tenant_of(host);
    let decoded = decoded_path(raw_path);
    let normalized = normalized_of(decoded.as_str());
    let pageview_path = pageview_of(decoded.as_str());
    let page = is_page(normalized.as_str());
    let action = match policy_of(normalized.as_str()) {
        ContentPolicy::Servable => RouteAction::Fetch {
            key: storage_key(tenant.as_str(), normalized.as_str()),
        },
        ContentPolicy::RedirectOnly => RouteAction::Redirect {
            location: redirect_url(tenant.as_str(), normalized.as_str()),
        },
    };
    RequestPlan { tenant, normalized, pageview_path, is_page: page, action }
}

/// What the object store returned for a storage key. Every backend
/// failure, missing object or otherwise, collapses to `Missing`.
pub enum FetchResult {
    Found { content_type: String, body: Vec<u8> },
    Missing,
}

/// The response handed back to the HTTP layer.
pub struct HttpReply {
    /// HTTP status code: 200, 302 or 404.
    pub status: u16,
    /// The redirect target, present exactly on a 302.
    pub location: Option<String>,
    /// The content type echoed from storage, present exactly on a 200.
    pub content_type: Option<String>,
    /// The response body bytes.
    pub body: Vec<u8>,
}

/// A pageview waiting to be recorded: the tenant whose numeric id must be
/// looked up, and the display path.
pub struct PageviewEvent {
    pub tenant: String,
    pub path: String,
}

/// Builds the redirect response for a redirect-only path: a 302 whose
/// `Location` is the asset-host URL, with a fixed placeholder body.
pub fn redirect_reply(location: String) -> (r: HttpReply)
    ensures
        r.status == 302,
        r.location == Some(location),
        r.content_type is None,
        r.body@ == "Redirecting...".spec_bytes(),
{
    HttpReply {
        status: 302,
        location: Some(location),
        content_type: None,
        body: "Redirecting...".as_bytes_vec(),
    }
}

/// Builds the response once the object store has answered, and decides
/// whether a pageview event is dispatched: a found object is served as a
/// 200 echoing its content type, and yields an event exactly when the
/// path is an HTML page; anything else is a 404 with a generic body and
/// no event.
pub fn handle_fetched(plan: &RequestPlan, fetched: FetchResult) -> (r: (
    HttpReply,
    Option<PageviewEvent>,
))
    ensures
        (fetched matches FetchResult::Found { content_type, body } ==> r.0.status == 200
            && r.0.content_type == Some(content_type) && r.0.body == body
            && r.0.location is None),
        (fetched is Missing ==> r.0.status == 404 && r.0.location is None
            && r.0.content_type is None && r.0.body@ == "Not Found".spec_bytes()),
        (r.1 is Some) == (plan.is_page && fetched matches FetchResult::Found { .. }),
        (r.1 matches Some(ev) ==> ev.tenant == plan.tenant && ev.path == plan.pageview_path),
{
    match fetched {
        FetchResult::Found { content_type, body } => {
            let event = if plan.is_page {
                Some(
                    PageviewEvent {
                        tenant: plan.tenant.clone(),
                        path: plan.pageview_path.clone(),
                    },
                )
            } else {
                None
            };
            let reply = HttpReply {
                status: 200,
                location: None,
                content_type: Some(content_type),
                body,
            };
            (reply, event)
        },
        FetchResult::Missing => {
            let reply = HttpReply {
                status: 404,
                location: None,
                content_type: None,
                body: "Not Found".as_bytes_vec(),
            };
            (reply, None)
        },
    }
}

/// One row of the pageview table.
pub struct PageviewRow {
    pub user_id: i32,
    pub path: String,
    pub ip: String,
}

/// Decides what the pageview recorder writes once the tenant lookup has
/// answered: a row carrying the tenant's numeric id, the display path and
/// the client address when the tenant is known, and nothing at all when
/// it is not.
pub fn pageview_row(lookup: Option<i32>, event: &PageviewEvent, client_ip: &str) -> (r: Option<
    PageviewRow,
>)
    ensures
        (lookup matches Some(id) ==> (r matches Some(row) && row.user_id == id && row.path
            == event.path && row.ip@ == client_ip@)),
        lookup is None ==> r is None,
{
    match lookup {
        Some(user_id) => Some(
            PageviewRow {
                user_id,
                path: event.path.clone(),
                ip: String::from_str(client_ip),
            },
        ),
        None => None,
    }
}

/// The candidate client address in a forwarding header: its first
/// comma-separated entry, trimmed.
pub open spec fn spec_forwarded_candidate(header: Seq<char>) -> Seq<char> {
    spec_trim(spec_prefix_before(header, ','))
}

/// Extracts the candidate client address from a forwarding header: the
/// first comma-separated entry, trimmed. Whether the candidate is a
/// well-formed address, and the fallback to the socket's origin, are the
/// caller's affair.
pub fn forwarded_candidate(header: &str) -> (c: String)
    ensures
        c@ == spec_forwarded_candidate(header@),
{
    let first = prefix_before(header, ',');
    trim(first.as_str())
}

} // verus!
