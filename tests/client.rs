use kubernetes_apimachinery::client::{page_parts, ApiClient, DynamicResource, Pager, Pods, Resource};
use kubernetes_apimachinery::group::GroupVersionResource;
use kubernetes_apimachinery::json::{parse_json, Json};
use kubernetes_apimachinery::meta::ObjectMeta;
use kubernetes_apimachinery::options::{signed_decimal, CreateOptions, DeleteOptions, GetOptions, ListOptions, PodLogOptions, UpdateOptions};
use kubernetes_apimachinery::request::{Method, Patch};
use kubernetes_apimachinery::response::ApiError;
use kubernetes_apimachinery::scope::{ClusterScope, DynamicScope, NamespaceScope, ResourceScope};

fn foos() -> DynamicResource {
    DynamicResource {
        group: "test".to_string(),
        version: "v1".to_string(),
        singular: "foo".to_string(),
        plural: "foos".to_string(),
    }
}

fn page(s: &str) -> Json {
    parse_json(s.as_bytes()).unwrap()
}

fn num(n: &str) -> Json {
    Json::Number(n.to_string())
}

#[test]
fn test_client_get() {
    let c = ApiClient::new((), "http://server".to_string());
    let name = NamespaceScope::Name { namespace: "default".to_string(), name: "myfoo".to_string() };
    let req = c.resource(foos()).get_request(&name, &GetOptions::default());
    assert_eq!(req.method, Method::Get);
    assert_eq!(req.namespace, Some("default".to_string()));
    assert_eq!(req.name, Some("myfoo".to_string()));
    assert_eq!(req.url_path(), "/apis/test/v1/namespaces/default/foos/myfoo");
}

#[test]
fn test_dynamic_get() {
    let c = ApiClient::new((), "http://server".to_string());
    let rsrc = foos();
    let scope = DynamicScope::Namespace(NamespaceScope::Name {
        namespace: "default".to_string(),
        name: "myfoo".to_string(),
    });
    let req = c.resource(&rsrc).get_request(&scope, &GetOptions::default());
    assert_eq!((req.group.as_str(), req.version.as_str(), req.resource.as_str()), ("test", "v1", "foos"));
    assert_eq!(req.url_path(), "/apis/test/v1/namespaces/default/foos/myfoo");
    assert_eq!(c.base_url(), "http://server");
}

#[test]
fn verbs_build_their_requests() {
    let c = ApiClient::new((), "http://server".to_string());
    let rc = c.resource(Pods);
    let meta = ObjectMeta { namespace: Some("ns".to_string()), name: Some("p".to_string()), ..Default::default() };
    let r = rc.create_request(&meta, b"{}".to_vec(), &CreateOptions::default());
    assert_eq!((r.method, r.url_path()), (Method::Post, "/api/v1/namespaces/ns/pods".to_string()));
    assert_eq!(r.content_type, Some("application/json"));
    let r = rc.update_request(&meta, b"{}".to_vec(), &UpdateOptions::default());
    assert_eq!((r.method, r.url_path()), (Method::Put, "/api/v1/namespaces/ns/pods/p".to_string()));
    let scope = NamespaceScope::Name { namespace: "ns".to_string(), name: "p".to_string() };
    let r = rc.patch_request(&scope, Patch::Merge(b"{}".to_vec()), &UpdateOptions::default());
    assert_eq!((r.method, r.content_type), (Method::Patch, Some("application/merge-patch+json")));
    let r = rc.delete_request(&scope, &DeleteOptions::default());
    assert_eq!((r.method, r.url_path()), (Method::Delete, "/api/v1/namespaces/ns/pods/p".to_string()));
    let r = rc.list_request(&scope, &ListOptions::default());
    assert_eq!(r.url_path(), "/api/v1/namespaces/ns/pods");
    let r = rc.watch_request(&NamespaceScope::Cluster, &ListOptions { resource_version: "7".to_string(), ..Default::default() });
    assert_eq!(r.url_path(), "/api/v1/pods?resourceVersion=7&watch=true");
}

#[test]
fn scopes_yield_segments() {
    let n = NamespaceScope::Name { namespace: "a".to_string(), name: "b".to_string() };
    assert_eq!(n.url_segments(), vec!["namespaces".to_string(), "a".to_string(), "b".to_string()]);
    assert_eq!(NamespaceScope::Namespace("a".to_string()).name(), None);
    assert_eq!(ClusterScope::Name("n".to_string()).url_segments(), vec!["n".to_string()]);
    assert_eq!(ClusterScope::Name("n".to_string()).namespace(), None);
    assert_eq!(DynamicScope::Cluster(ClusterScope::Cluster).url_segments(), Vec::<String>::new());
    assert_eq!(Pods.plural(), "pods");
    assert_eq!(Pods::gvr(), GroupVersionResource { group: "".to_string(), version: "v1".to_string(), resource: "pods".to_string() });
}

fn drain(p: &mut Pager, pages: Vec<Json>) -> (usize, Vec<Json>, Vec<String>) {
    let g = Pods::gvr();
    let mut pages = pages.into_iter();
    let mut requests = 0;
    let mut items = Vec::new();
    let mut urls = Vec::new();
    while let Some(req) = p.next_request(&g) {
        requests += 1;
        urls.push(req.url_path());
        let pg = pages.next().expect("more requests than pages");
        items.extend(p.on_page(pg).unwrap());
    }
    (requests, items, urls)
}

#[test]
fn pagination_terminates_and_preserves_order() {
    let mut p = Pager::new(Some("ns".to_string()), ListOptions { limit: 2, ..Default::default() });
    let pages = vec![
        page(r#"{"metadata":{"continue":"t1"},"items":[1,2]}"#),
        page(r#"{"metadata":{"continue":"t2"},"items":[3,4]}"#),
        page(r#"{"metadata":{"resourceVersion":"9"},"items":[5]}"#),
    ];
    let (requests, items, urls) = drain(&mut p, pages);
    assert_eq!(requests, 3);
    assert_eq!(items, vec![num("1"), num("2"), num("3"), num("4"), num("5")]);
    assert_eq!(
        urls,
        vec![
            "/api/v1/namespaces/ns/pods?limit=2".to_string(),
            "/api/v1/namespaces/ns/pods?limit=2&continue=t1".to_string(),
            "/api/v1/namespaces/ns/pods?limit=2&continue=t2".to_string(),
        ]
    );
    assert!(p.is_done());
}

#[test]
fn pagination_continues_on_empty_page_with_token() {
    let mut p = Pager::new(None, ListOptions::default());
    let pages = vec![
        page(r#"{"metadata":{"continue":"t1"},"items":[]}"#),
        page(r#"{"metadata":{"continue":""},"items":[7]}"#),
    ];
    let (requests, items, _) = drain(&mut p, pages);
    assert_eq!(requests, 2);
    assert_eq!(items, vec![num("7")]);
}

#[test]
fn page_parts_reads_token_and_items() {
    let (t, items) = page_parts(page(r#"{"metadata":{"continue":"abc"},"items":["x"]}"#)).unwrap();
    assert_eq!(t, "abc");
    assert_eq!(items, vec![Json::Str("x".to_string())]);
    let (t, items) = page_parts(page(r#"{"items":[]}"#)).unwrap();
    assert_eq!(t, "");
    assert!(items.is_empty());
    assert_eq!(page_parts(page(r#"{"metadata":7,"items":[]}"#)), Err(ApiError::MalformedList));
    assert_eq!(page_parts(page(r#"{"metadata":{}}"#)), Err(ApiError::MalformedList));
    assert_eq!(page_parts(page(r#"{"items":{}}"#)), Err(ApiError::MalformedList));
}

#[test]
fn resource_client_iter_starts_fresh() {
    let c = ApiClient::new((), "http://server".to_string());
    let rc = c.resource(Pods);
    let mut p = rc.iter(&NamespaceScope::Namespace("ns".to_string()), ListOptions::default());
    let (requests, items, _) = drain(&mut p, vec![page(r#"{"items":[1]}"#)]);
    assert_eq!((requests, items), (1, vec![num("1")]));
}

#[test]
fn pod_log_and_delete_collection_requests() {
    let c = ApiClient::new((), "http://server".to_string());
    let rc = c.resource(Pods);
    let scope = NamespaceScope::Name { namespace: "ns".to_string(), name: "p".to_string() };
    let opts = PodLogOptions { container: Some("main".to_string()), follow: true, tail_lines: Some(-1), ..Default::default() };
    let r = rc.log_request(&scope, &opts);
    assert_eq!(r.url_path(), "/api/v1/namespaces/ns/pods/p/logs?container=main&follow=true&tailLines=-1");
    let r = rc.delete_collection_request(&NamespaceScope::Namespace("ns".to_string()), &ListOptions { label_selector: "a=b".to_string(), ..Default::default() });
    assert_eq!((r.method, r.url_path()), (Method::Delete, "/api/v1/namespaces/ns/pods?labelSelector=a%3Db".to_string()));
}

#[test]
fn signed_decimal_extremes() {
    assert_eq!(signed_decimal(i64::MIN), "-9223372036854775808");
    assert_eq!(signed_decimal(i64::MAX), "9223372036854775807");
    assert_eq!(signed_decimal(-5), "-5");
    assert_eq!(signed_decimal(0), "0");
}

#[test]
fn malformed_page_ends_paging_with_an_error() {
    let mut p = Pager::new(None, ListOptions { label_selector: "a=b".to_string(), ..Default::default() });
    let g = Pods::gvr();
    assert!(p.next_request(&g).is_some());
    assert_eq!(p.on_page(page(r#"{"metadata":{"continue":"t1"},"items":[1]}"#)).unwrap(), vec![num("1")]);
    let req = p.next_request(&g).unwrap();
    assert_eq!(req.url_path(), "/api/v1/pods?labelSelector=a%3Db&continue=t1");
    assert_eq!(p.on_page(page(r#"{"metadata":{"continue":"t2"}}"#)), Err(ApiError::MalformedList));
    assert!(p.is_done());
    assert!(p.next_request(&g).is_none());
}
