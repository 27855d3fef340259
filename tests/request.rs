use kubernetes_apimachinery::group::GroupVersionResource;
use kubernetes_apimachinery::options::{decimal, DeleteOptions, DeletionPropagation, DryRun, GetOptions, ListOptions, UpdateOptions};
use kubernetes_apimachinery::request::{url_path, Method, Patch, Request, APPLICATION_JSON, MERGE_PATCH};

fn gvr(g: &str, v: &str, r: &str) -> GroupVersionResource {
    GroupVersionResource { group: g.to_string(), version: v.to_string(), resource: r.to_string() }
}

fn pairs(p: &[(&str, &str)]) -> Vec<(String, String)> {
    p.iter().map(|(k, v)| (k.to_string(), v.to_string())).collect()
}

#[test]
fn namespaced_to_http() {
    let proxy_req = Request {
        group: "".to_string(),
        version: "v1".to_string(),
        resource: "services".to_string(),
        namespace: Some("myns".to_string()),
        name: Some("mysvc".to_string()),
        subresource: Some("proxy".to_string()),
        method: Method::Post,
        opts: pairs(&[("path", "foo")]),
        content_type: Some(APPLICATION_JSON),
        body: br#"{"foo":"bar"}"#.to_vec(),
    };

    assert_eq!(proxy_req.url_path(), "/api/v1/namespaces/myns/services/mysvc/proxy?path=foo");

    let hreq = proxy_req.into_http_request("http://server:1234").unwrap();
    assert_eq!(hreq.method, Method::Post);
    assert_eq!(hreq.uri, "http://server:1234/api/v1/namespaces/myns/services/mysvc/proxy?path=foo");
    assert_eq!(hreq.body, br#"{"foo":"bar"}"#.to_vec());
    assert_eq!(hreq.headers, pairs(&[("Accept", "application/json"), ("Content-Type", "application/json")]));
}

#[test]
fn non_namespaced() {
    let delete_req = Request {
        group: "rbac.authorization.k8s.io".to_string(),
        version: "v1".to_string(),
        resource: "clusterroles".to_string(),
        namespace: None,
        name: Some("mycr".to_string()),
        subresource: None,
        method: Method::Delete,
        opts: Vec::new(),
        content_type: None,
        body: Vec::new(),
    };

    assert_eq!(delete_req.url_path(), "/apis/rbac.authorization.k8s.io/v1/clusterroles/mycr");

    let hreq = delete_req.into_http_request("http://example:1234").unwrap();
    assert_eq!(hreq.method, Method::Delete);
    assert_eq!(hreq.uri, "http://example:1234/apis/rbac.authorization.k8s.io/v1/clusterroles/mycr");
    assert_eq!(hreq.body, b"".to_vec());
    assert_eq!(hreq.headers, pairs(&[("Accept", "application/json")]));
}

#[test]
fn url_path_is_deterministic() {
    let g = gvr("", "v1", "services");
    let opts = pairs(&[("path", "foo")]);
    let a = url_path(&g, Some("myns"), Some("mysvc"), Some("proxy"), &opts);
    let b = url_path(&g, Some("myns"), Some("mysvc"), Some("proxy"), &opts);
    assert_eq!(a, "/api/v1/namespaces/myns/services/mysvc/proxy?path=foo");
    assert_eq!(a, b);
}

#[test]
fn url_path_omits_namespace_segment() {
    let g = gvr("rbac.authorization.k8s.io", "v1", "clusterroles");
    assert_eq!(
        url_path(&g, None, Some("mycr"), None, &Vec::new()),
        "/apis/rbac.authorization.k8s.io/v1/clusterroles/mycr"
    );
}

#[test]
fn query_values_are_form_encoded() {
    let g = gvr("", "v1", "pods");
    let opts = ListOptions { label_selector: "app in (a b)".to_string(), ..Default::default() };
    assert_eq!(
        url_path(&g, Some("ns"), None, None, &opts.query_pairs()),
        "/api/v1/namespaces/ns/pods?labelSelector=app+in+%28a+b%29"
    );
}

#[test]
fn test_req_build() {
    let base = "https://192.168.42.147:8443";
    let req = Request::builder(gvr("", "v1", "pods"))
        .namespace("myns")
        .name("myname")
        .method(Method::Get)
        .opts(GetOptions::default().query_pairs())
        .build();
    assert_eq!(req.into_http_request(base).unwrap().uri, "https://192.168.42.147:8443/api/v1/namespaces/myns/pods/myname");

    let req = Request::builder(gvr("rbac.authorization.k8s.io", "v1beta1", "clusterroles"))
        .name("myrole")
        .method(Method::Post)
        .opts(GetOptions { pretty: true, ..Default::default() }.query_pairs())
        .build();
    assert_eq!(
        req.into_http_request(base).unwrap().uri,
        "https://192.168.42.147:8443/apis/rbac.authorization.k8s.io/v1beta1/clusterroles/myrole?pretty=true"
    );

    let req = Request::builder(gvr("", "v1", "namespaces"))
        .method(Method::Get)
        .opts(ListOptions { resource_version: "abcdef".into(), limit: 27, ..Default::default() }.query_pairs())
        .build();
    assert_eq!(
        req.into_http_request(base).unwrap().uri,
        "https://192.168.42.147:8443/api/v1/namespaces?resourceVersion=abcdef&limit=27"
    );
}

#[test]
fn test_url() {
    let base = "https://192.168.42.147:8443";
    let req = Request::builder(gvr("", "v1", "namespaces"))
        .opts(ListOptions { resource_version: "abcdef".into(), limit: 27, ..Default::default() }.query_pairs())
        .build();
    assert_eq!(req.url_path(), "/api/v1/namespaces?resourceVersion=abcdef&limit=27");
    assert_eq!(
        req.into_http_request(base).unwrap().uri,
        "https://192.168.42.147:8443/api/v1/namespaces?resourceVersion=abcdef&limit=27"
    );
}

#[test]
fn builder_example_with_get_options() {
    let req = Request::builder(gvr("", "v1", "services"))
        .namespace("default")
        .name("kubernetes")
        .opts(GetOptions { resource_version: "xyz".to_string(), ..Default::default() }.query_pairs())
        .build();
    assert_eq!(req.method, Method::Get);
    assert_eq!(req.url_path(), "/api/v1/namespaces/default/services/kubernetes?resourceVersion=xyz");
}

#[test]
fn base_url_without_paths_is_refused() {
    let req = Request::builder(gvr("", "v1", "pods")).build();
    let e = req.into_http_request("mailto:someone@example.com").unwrap_err();
    assert_eq!(e.base, "mailto:someone@example.com");
    let req = Request::builder(gvr("", "v1", "pods")).build();
    assert!(req.into_http_request("not a url").is_err());
}

#[test]
fn body_only_with_content_type() {
    let mut b = Request::builder(gvr("", "v1", "pods"));
    b.body_mut().extend_from_slice(b"{}");
    let req = b.build();
    assert_eq!(req.body, b"{}".to_vec());
    let h = req.into_http_request("http://h").unwrap();
    assert!(h.body.is_empty());
    let req = Request::builder(gvr("", "v1", "pods")).body(APPLICATION_JSON, b"{}".to_vec()).build();
    assert_eq!(req.into_http_request("http://h").unwrap().body, b"{}".to_vec());
}

#[test]
fn opts_mut_edits_the_query() {
    let mut b = Request::builder(gvr("", "v1", "pods"));
    b.opts_mut().push(("limit".to_string(), "5".to_string()));
    assert_eq!(b.build().url_path(), "/api/v1/pods?limit=5");
}

#[test]
fn options_leave_out_defaults() {
    assert!(GetOptions::default().query_pairs().is_empty());
    assert!(ListOptions::default().query_pairs().is_empty());
    assert!(UpdateOptions::default().query_pairs().is_empty());
    assert!(DeleteOptions::default().query_pairs().is_empty());
    let all = ListOptions {
        resource_version: "1".to_string(),
        timeout_seconds: 30,
        watch: true,
        pretty: true,
        field_selector: "f".to_string(),
        label_selector: "l".to_string(),
        include_uninitialized: true,
        limit: 500,
        continu: "tok".to_string(),
    };
    assert_eq!(
        all.query_pairs(),
        pairs(&[
            ("resourceVersion", "1"),
            ("timeoutSeconds", "30"),
            ("watch", "true"),
            ("pretty", "true"),
            ("fieldSelector", "f"),
            ("labelSelector", "l"),
            ("includeUninitialized", "true"),
            ("limit", "500"),
            ("continue", "tok"),
        ])
    );
    let del = DeleteOptions {
        grace_period_seconds: Some(0),
        orphan_dependents: Some(false),
        propagation_policy: Some(DeletionPropagation::Foreground),
        dry_run: vec![DryRun::All],
        ..Default::default()
    };
    assert_eq!(
        del.query_pairs(),
        pairs(&[
            ("gracePeriodSeconds", "0"),
            ("orphanDependents", "false"),
            ("propagationPolicy", "Foreground"),
            ("dryRun", "All"),
        ])
    );
}

#[test]
fn patch_content_types() {
    assert_eq!(Patch::Json(b"[]".to_vec()).content_type(), "application/json-patch+json");
    assert_eq!(Patch::Merge(b"{}".to_vec()).content_type(), MERGE_PATCH);
    assert_eq!(Patch::StrategicMerge(b"{}".to_vec()).content_type(), "application/strategic-merge-patch+json");
    assert_eq!(Patch::Merge(b"{\"a\":1}".to_vec()).into_document(), b"{\"a\":1}".to_vec());
}

#[test]
fn decimal_writes_digits() {
    assert_eq!(decimal(0), "0");
    assert_eq!(decimal(27), "27");
    assert_eq!(decimal(18446744073709551615), "18446744073709551615");
}
