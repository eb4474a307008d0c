use proxy::handler::forwarded_candidate;
use proxy::handler::handle_fetched;
use proxy::handler::pageview_row;
use proxy::handler::plan_request;
use proxy::handler::redirect_reply;
use proxy::handler::FetchResult;
use proxy::handler::PageviewEvent;
use proxy::handler::RouteAction;
use proxy::paths::normalized_of;
use proxy::paths::tenant_of;
use proxy::policy::policy_of;
use proxy::policy::ContentPolicy;

fn fetch_key(action: &RouteAction) -> String {
    match action {
        RouteAction::Fetch { key } => key.clone(),
        RouteAction::Redirect { .. } => panic!("expected a fetch action"),
    }
}

fn redirect_location(action: &RouteAction) -> String {
    match action {
        RouteAction::Redirect { location } => location.clone(),
        RouteAction::Fetch { .. } => panic!("expected a redirect action"),
    }
}

#[test]
fn routing_is_deterministic() {
    let a = plan_request("acme.example.com", "/blog/post.html");
    let b = plan_request("acme.example.com", "/blog/post.html");
    assert_eq!(fetch_key(&a.action), fetch_key(&b.action));
    assert_eq!(a.tenant, b.tenant);
    assert_eq!(a.normalized, b.normalized);
    assert_eq!(a.pageview_path, b.pageview_path);
    assert_eq!(a.is_page, b.is_page);
}

#[test]
fn root_and_index_html_agree() {
    let root = plan_request("acme.example.com", "/");
    let index = plan_request("acme.example.com", "/index.html");
    assert_eq!(fetch_key(&root.action), fetch_key(&index.action));
    assert_eq!(fetch_key(&root.action), "acme/index.html");
    assert_eq!(root.pageview_path, "/");
    assert_eq!(index.pageview_path, "/");
}

#[test]
fn normalization_is_idempotent() {
    assert_eq!(normalized_of("index.html"), "index.html");
    let once = normalized_of("blog/");
    let twice = normalized_of(&once);
    assert_eq!(twice, once);
}

#[test]
fn extension_decides_the_policy() {
    let readme = plan_request("acme.example.com", "/readme");
    assert!(matches!(readme.action, RouteAction::Redirect { .. }));
    let app_js = plan_request("acme.example.com", "/app.js");
    assert!(matches!(app_js.action, RouteAction::Fetch { .. }));
    let a_b_json = plan_request("acme.example.com", "/a.b.json");
    assert!(matches!(a_b_json.action, RouteAction::Fetch { .. }));
    assert_eq!(policy_of("a.b.json"), ContentPolicy::Servable);
    assert_eq!(policy_of("readme"), ContentPolicy::RedirectOnly);
}

#[test]
fn bare_servable_word_without_dot_is_redirected() {
    // `js` alone has no extension at all, so it is not servable.
    assert_eq!(policy_of("js"), ContentPolicy::RedirectOnly);
    assert_eq!(policy_of("file."), ContentPolicy::RedirectOnly);
}

#[test]
fn root_page_is_served_and_recorded() {
    let plan = plan_request("acme.example.com", "/");
    assert_eq!(fetch_key(&plan.action), "acme/index.html");
    assert_eq!(plan.pageview_path, "/");
    let fetched = FetchResult::Found {
        content_type: "text/html".to_string(),
        body: b"<html></html>".to_vec(),
    };
    let (reply, event) = handle_fetched(&plan, fetched);
    assert_eq!(reply.status, 200);
    assert_eq!(reply.content_type.as_deref(), Some("text/html"));
    assert_eq!(reply.body, b"<html></html>".to_vec());
    let event = event.expect("an HTML page view must be recorded");
    assert_eq!(event.tenant, "acme");
    assert_eq!(event.path, "/");
}

#[test]
fn directory_path_maps_to_index_under_it() {
    let plan = plan_request("acme.example.com", "/blog/");
    assert_eq!(fetch_key(&plan.action), "acme/blog/index.html");
    assert_eq!(plan.pageview_path, "/blog");
    let fetched = FetchResult::Found {
        content_type: "text/html".to_string(),
        body: b"post".to_vec(),
    };
    let (reply, event) = handle_fetched(&plan, fetched);
    assert_eq!(reply.status, 200);
    assert!(event.is_some());
}

#[test]
fn empty_host_redirect_keeps_empty_tenant_segment() {
    let plan = plan_request("", "/logo.png");
    assert_eq!(plan.tenant, "");
    assert_eq!(
        redirect_location(&plan.action),
        "https://r2.naru.pub//logo.png"
    );
    let reply = redirect_reply(redirect_location(&plan.action));
    assert_eq!(reply.status, 302);
    assert_eq!(
        reply.location.as_deref(),
        Some("https://r2.naru.pub//logo.png")
    );
    assert_eq!(reply.body, b"Redirecting...".to_vec());
    assert!(reply.content_type.is_none());
}

#[test]
fn missing_object_is_a_plain_not_found() {
    let plan = plan_request("acme.example.com", "/missing.html");
    assert_eq!(fetch_key(&plan.action), "acme/missing.html");
    let (reply, event) = handle_fetched(&plan, FetchResult::Missing);
    assert_eq!(reply.status, 404);
    assert_eq!(reply.body, b"Not Found".to_vec());
    assert!(reply.location.is_none());
    assert!(reply.content_type.is_none());
    assert!(event.is_none());
}

#[test]
fn unknown_tenant_skips_the_pageview_row() {
    let plan = plan_request("unknown-tenant.example.com", "/index.html");
    let fetched = FetchResult::Found {
        content_type: "text/html".to_string(),
        body: b"ok".to_vec(),
    };
    let (reply, event) = handle_fetched(&plan, fetched);
    assert_eq!(reply.status, 200);
    let event = event.expect("the fetch succeeded on an HTML page");
    assert!(pageview_row(None, &event, "203.0.113.5").is_none());
}

#[test]
fn known_tenant_yields_one_row() {
    let event = PageviewEvent {
        tenant: "acme".to_string(),
        path: "/blog".to_string(),
    };
    let row = pageview_row(Some(7), &event, "203.0.113.5").expect("a known tenant is recorded");
    assert_eq!(row.user_id, 7);
    assert_eq!(row.path, "/blog");
    assert_eq!(row.ip, "203.0.113.5");
}

#[test]
fn forwarded_header_yields_its_first_entry() {
    assert_eq!(
        forwarded_candidate("203.0.113.5, 10.0.0.1"),
        "203.0.113.5"
    );
    assert_eq!(forwarded_candidate("  10.0.0.1  "), "10.0.0.1");
    assert_eq!(forwarded_candidate(""), "");
}

#[test]
fn percent_encoded_paths_are_decoded() {
    let plan = plan_request("acme.example.com", "/a%20b.html");
    assert_eq!(fetch_key(&plan.action), "acme/a b.html");
    assert_eq!(plan.pageview_path, "/a b.html");
}

#[test]
fn undecodable_path_falls_back_to_the_root_page() {
    // %FF cannot decode as UTF-8; the request is still answered, as if
    // the path were empty.
    let plan = plan_request("acme.example.com", "/%FF.html");
    assert_eq!(fetch_key(&plan.action), "acme/index.html");
    assert_eq!(plan.pageview_path, "/");
}

#[test]
fn tenant_is_the_leftmost_label() {
    assert_eq!(tenant_of("acme.example.com"), "acme");
    assert_eq!(tenant_of("acme"), "acme");
    assert_eq!(tenant_of(""), "");
    assert_eq!(tenant_of(".example.com"), "");
}

#[test]
fn trailing_slashes_are_stripped_from_the_pageview_path() {
    let plan = plan_request("acme.example.com", "/blog///");
    assert_eq!(fetch_key(&plan.action), "acme/blog///index.html");
    assert_eq!(plan.pageview_path, "/blog");
}

#[test]
fn only_html_pages_are_recorded() {
    let plan = plan_request("acme.example.com", "/data.json");
    assert!(!plan.is_page);
    let fetched = FetchResult::Found {
        content_type: "application/json".to_string(),
        body: b"{}".to_vec(),
    };
    let (reply, event) = handle_fetched(&plan, fetched);
    assert_eq!(reply.status, 200);
    assert!(event.is_none());
}
