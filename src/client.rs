//! The generic resource client: it turns each verb on a resource kind into
//! a request, and pages through lists by continuation token.
//!
//! The client does not talk to the network. Each verb yields the request
//! to send; the caller's transport sends it and hands the raw response to
//! `Response::from_http_response`, or, for a watch, feeds the body to a
//! `WatchStream`.

use vstd::prelude::*;
use crate::group::GroupVersionResource;
use crate::json::{Json, field};
use crate::meta::ObjectMeta;
use crate::options::{GetOptions, CreateOptions, UpdateOptions, DeleteOptions, ListOptions, PodLogOptions};
use crate::request::{Request, RequestView, Builder, Method, Patch, APPLICATION_JSON};
use crate::response::ApiError;
use crate::scope::ResourceScope;
use crate::status::{ListMeta, list_meta_ok, text_or_empty};
use crate::text::{opt_view, copy_string, copy_opt};

verus! {

/// A kind of resource: where it lives in the API and what it is called.
pub trait Resource {
    spec fn spec_group(&self) -> Seq<char>;

    spec fn spec_version(&self) -> Seq<char>;

    spec fn spec_resource(&self) -> Seq<char>;

    fn gvr(&self) -> (r: GroupVersionResource)
        ensures
            r.group@ == self.spec_group(),
            r.version@ == self.spec_version(),
            r.resource@ == self.spec_resource();

    fn singular(&self) -> String;

    fn plural(&self) -> String;
}

/// A resource kind known only at run time.
#[derive(Debug, Clone, PartialEq, Eq)]
pub struct DynamicResource {
    pub group: String,
    pub version: String,
    pub singular: String,
    pub plural: String,
}

impl Resource for DynamicResource {
    open spec fn spec_group(&self) -> Seq<char> {
        self.group@
    }

    open spec fn spec_version(&self) -> Seq<char> {
        self.version@
    }

    open spec fn spec_resource(&self) -> Seq<char> {
        self.plural@
    }

    fn gvr(&self) -> (r: GroupVersionResource) {
        GroupVersionResource {
            group: copy_string(&self.group),
            version: copy_string(&self.version),
            resource: copy_string(&self.plural),
        }
    }

    fn singular(&self) -> String {
        copy_string(&self.singular)
    }

    fn plural(&self) -> String {
        copy_string(&self.plural)
    }
}

impl<'a, R: Resource> Resource for &'a R {
    open spec fn spec_group(&self) -> Seq<char> {
        (**self).spec_group()
    }

    open spec fn spec_version(&self) -> Seq<char> {
        (**self).spec_version()
    }

    open spec fn spec_resource(&self) -> Seq<char> {
        (**self).spec_resource()
    }

    fn gvr(&self) -> (r: GroupVersionResource) {
        (**self).gvr()
    }

    fn singular(&self) -> String {
        (**self).singular()
    }

    fn plural(&self) -> String {
        (**self).plural()
    }
}

/// Pods: namespaced objects of the legacy core group.
#[derive(Debug, Clone, Copy, PartialEq, Eq)]
pub struct Pods;

impl Pods {
    pub fn gvr() -> (r: GroupVersionResource)
        ensures
            r.group@.len() == 0,
            r.version@ == "v1"@,
            r.resource@ == "pods"@,
    {
        GroupVersionResource { group: String::new(), version: "v1".to_owned(), resource: "pods".to_owned() }
    }
}

impl Resource for Pods {
    open spec fn spec_group(&self) -> Seq<char> {
        Seq::empty()
    }

    open spec fn spec_version(&self) -> Seq<char> {
        "v1"@
    }

    open spec fn spec_resource(&self) -> Seq<char> {
        "pods"@
    }

    fn gvr(&self) -> (r: GroupVersionResource) {
        Pods::gvr()
    }

    fn singular(&self) -> String {
        "pod".to_owned()
    }

    fn plural(&self) -> String {
        "pods".to_owned()
    }
}

impl<C> ResourceClient<C, Pods> {
    /// GET of a pod's log: the `logs` subresource of the pod.
    pub fn log_request<S: ResourceScope>(&self, scope: &S, opts: &PodLogOptions) -> (r: Request)
        ensures
            r@ == (RequestView {
                namespace: scope.spec_namespace(),
                name: scope.spec_name(),
                subresource: Some("logs"@),
                method: Method::Get,
                opts: opts.spec_query(),
                ..base_view(Pods)
            }),
    {
        self.start().scope(scope).subresource("logs").method(Method::Get).opts(opts.query_pairs()).build()
    }
}

/// A handle on an API server: the transport and the base URL. It holds no
/// state of any call.
#[derive(Debug, Clone)]
pub struct ApiClient<C> {
    http_client: C,
    base_url: String,
}

impl<C> ApiClient<C> {
    pub closed spec fn spec_base_url(&self) -> Seq<char> {
        self.base_url@
    }

    pub closed spec fn spec_http_client(&self) -> C {
        self.http_client
    }

    pub fn new(client: C, base_url: String) -> (r: ApiClient<C>)
        ensures
            r.spec_base_url() == base_url@,
            r.spec_http_client() == client,
    {
        ApiClient { http_client: client, base_url }
    }

    pub fn base_url(&self) -> (r: &str)
        ensures
            r@ == self.spec_base_url(),
    {
        self.base_url.as_str()
    }

    pub fn http_client(&self) -> (r: &C)
        ensures
            *r == self.spec_http_client(),
    {
        &self.http_client
    }

    /// A client for one resource kind on this server.
    pub fn resource<'a, R: Resource>(&'a self, rsrc: R) -> (r: ResourceClient<&'a ApiClient<C>, R>)
        ensures
            r.spec_resource() == rsrc,
    {
        ResourceClient { api_client: self, resource: rsrc }
    }
}

/// The request that a verb starts from: the resource's identity, nothing
/// else.
pub open spec fn base_view<R: Resource>(rsrc: R) -> RequestView {
    RequestView {
        group: rsrc.spec_group(),
        version: rsrc.spec_version(),
        resource: rsrc.spec_resource(),
        namespace: None,
        name: None,
        subresource: None,
        method: Method::Get,
        opts: seq![],
        content_type: None,
        body: seq![],
    }
}

/// The client of one resource kind.
pub struct ResourceClient<C, R> {
    api_client: C,
    resource: R,
}

impl<C, R: Resource> ResourceClient<C, R> {
    pub closed spec fn spec_resource(&self) -> R {
        self.resource
    }

    pub fn new(api_client: C, resource: R) -> (r: ResourceClient<C, R>)
        ensures
            r.spec_resource() == resource,
    {
        ResourceClient { api_client, resource }
    }

    pub fn api_client(&self) -> &C {
        &self.api_client
    }

    /// The identity of the resource kind.
    pub fn resource_gvr(&self) -> (r: GroupVersionResource)
        ensures
            r.group@ == self.spec_resource().spec_group(),
            r.version@ == self.spec_resource().spec_version(),
            r.resource@ == self.spec_resource().spec_resource(),
    {
        self.resource.gvr()
    }

    fn start(&self) -> (r: Builder)
        ensures
            r@ == base_view(self.resource),
    {
        Request::builder(self.resource.gvr())
    }

    /// GET of one object.
    pub fn get_request<S: ResourceScope>(&self, scope: &S, opts: &GetOptions) -> (r: Request)
        ensures
            r@ == (RequestView {
                namespace: scope.spec_namespace(),
                name: scope.spec_name(),
                method: Method::Get,
                opts: opts.spec_query(),
                ..base_view(self.spec_resource())
            }),
    {
        self.start().scope(scope).method(Method::Get).opts(opts.query_pairs()).build()
    }

    /// POST of a new object to its collection; the namespace comes from
    /// the object's own metadata. `body` is the object's JSON text.
    pub fn create_request(&self, meta: &ObjectMeta, body: Vec<u8>, opts: &CreateOptions) -> (r: Request)
        ensures
            r@ == (RequestView {
                namespace: opt_view(meta.namespace),
                method: Method::Post,
                opts: opts.spec_query(),
                content_type: Some(APPLICATION_JSON@),
                body: body@,
                ..base_view(self.spec_resource())
            }),
    {
        self.start()
            .namespace_maybe(copy_opt(&meta.namespace))
            .method(Method::Post)
            .opts(opts.query_pairs())
            .body(APPLICATION_JSON, body)
            .build()
    }

    /// PUT of an object to its own URL; namespace and name come from its
    /// metadata.
    pub fn update_request(&self, meta: &ObjectMeta, body: Vec<u8>, opts: &UpdateOptions) -> (r: Request)
        ensures
            r@ == (RequestView {
                namespace: opt_view(meta.namespace),
                name: opt_view(meta.name),
                method: Method::Put,
                opts: opts.spec_query(),
                content_type: Some(APPLICATION_JSON@),
                body: body@,
                ..base_view(self.spec_resource())
            }),
    {
        self.start()
            .name_maybe(copy_opt(&meta.name))
            .namespace_maybe(copy_opt(&meta.namespace))
            .method(Method::Put)
            .opts(opts.query_pairs())
            .body(APPLICATION_JSON, body)
            .build()
    }

    /// PATCH of one object, in the content type of the patch's dialect.
    pub fn patch_request<S: ResourceScope>(&self, scope: &S, patch: Patch, opts: &UpdateOptions) -> (r: Request)
        ensures
            r@ == (RequestView {
                namespace: scope.spec_namespace(),
                name: scope.spec_name(),
                method: Method::Patch,
                opts: opts.spec_query(),
                content_type: Some(patch.spec_content_type()),
                body: patch.spec_document(),
                ..base_view(self.spec_resource())
            }),
    {
        let ct = patch.content_type();
        self.start()
            .scope(scope)
            .method(Method::Patch)
            .opts(opts.query_pairs())
            .body(ct, patch.into_document())
            .build()
    }

    /// DELETE of one object.
    pub fn delete_request<S: ResourceScope>(&self, scope: &S, opts: &DeleteOptions) -> (r: Request)
        ensures
            r@ == (RequestView {
                namespace: scope.spec_namespace(),
                name: scope.spec_name(),
                method: Method::Delete,
                opts: opts.spec_query(),
                ..base_view(self.spec_resource())
            }),
    {
        self.start().scope(scope).method(Method::Delete).opts(opts.query_pairs()).build()
    }

    /// DELETE of every object of a collection that the options select.
    pub fn delete_collection_request<S: ResourceScope>(&self, scope: &S, opts: &ListOptions) -> (r: Request)
        ensures
            r@ == (RequestView {
                namespace: scope.spec_namespace(),
                method: Method::Delete,
                opts: opts.spec_query(),
                ..base_view(self.spec_resource())
            }),
    {
        self.start().namespace_maybe(scope.namespace()).method(Method::Delete).opts(opts.query_pairs()).build()
    }

    /// GET of one page of a collection: the scope's namespace, if any, and
    /// never a name.
    pub fn list_request<S: ResourceScope>(&self, scope: &S, opts: &ListOptions) -> (r: Request)
        ensures
            r@ == (RequestView {
                namespace: scope.spec_namespace(),
                method: Method::Get,
                opts: opts.spec_query(),
                ..base_view(self.spec_resource())
            }),
    {
        self.start().namespace_maybe(scope.namespace()).method(Method::Get).opts(opts.query_pairs()).build()
    }

    /// GET of a watch on a collection: `watch` is set whatever the caller
    /// passed; all other options go through as given.
    pub fn watch_request<S: ResourceScope>(&self, scope: &S, opts: &ListOptions) -> (r: Request)
        ensures
            r@ == (RequestView {
                namespace: scope.spec_namespace(),
                method: Method::Get,
                opts: (ListOptions { watch: true, ..*opts }).spec_query(),
                ..base_view(self.spec_resource())
            }),
    {
        let o = ListOptions {
            resource_version: copy_string(&opts.resource_version),
            timeout_seconds: opts.timeout_seconds,
            watch: true,
            pretty: opts.pretty,
            field_selector: copy_string(&opts.field_selector),
            label_selector: copy_string(&opts.label_selector),
            include_uninitialized: opts.include_uninitialized,
            limit: opts.limit,
            continu: copy_string(&opts.continu),
        };
        self.start().namespace_maybe(scope.namespace()).method(Method::Get).opts(o.query_pairs()).build()
    }

    /// A pager over the collection in the scope's namespace.
    pub fn iter<S: ResourceScope>(&self, scope: &S, opts: ListOptions) -> (r: Pager)
        ensures
            r@ == (PagerView {
                continu: opts.continu@,
                done: false,
                requests: 0,
                yielded: seq![],
            }),
            r.wf(),
            r.spec_namespace() == scope.spec_namespace(),
            r.spec_opts() == opts,
    {
        Pager::new(scope.namespace(), opts)
    }
}

/// A list page reads: `items` is an array, and `metadata`, when present,
/// is list metadata.
pub open spec fn page_ok(page: Json) -> bool {
    &&& field(page, "items"@) matches Some(Json::Array(_))
    &&& (field(page, "metadata"@) matches Some(m) ==> list_meta_ok(m))
}

/// The continuation token of a list page: `metadata.continue`, empty when
/// there is none.
pub open spec fn page_token(page: Json) -> Seq<char> {
    match field(page, "metadata"@) {
        Some(m) => text_or_empty(field(m, "continue"@)),
        None => Seq::empty(),
    }
}

/// The items of a list page, in the server's order.
pub open spec fn page_items(page: Json) -> Seq<Json> {
    match field(page, "items"@) {
        Some(Json::Array(a)) => a@,
        _ => Seq::empty(),
    }
}

/// Splits a list page into its continuation token and its items; a page
/// that does not read is an error, never an empty page.
pub fn page_parts(page: Json) -> (r: Result<(String, Vec<Json>), ApiError>)
    ensures
        r is Ok <==> page_ok(page),
        r matches Ok(x) ==> x.0@ == page_token(page) && x.1@ == page_items(page),
        r matches Err(e) ==> e == ApiError::MalformedList,
{
    let token = match page.get("metadata") {
        Some(m) => match ListMeta::from_json(m) {
            Ok(lm) => lm.continue_token(),
            Err(_) => return Err(ApiError::MalformedList),
        },
        None => String::new(),
    };
    match page.take("items") {
        Some(Json::Array(a)) => Ok((token, a)),
        _ => Err(ApiError::MalformedList),
    }
}

/// Where a pager stands: the token it sends next, whether it is done, how
/// many requests it issued, and every item it handed out.
pub struct PagerView {
    pub continu: Seq<char>,
    pub done: bool,
    pub requests: nat,
    pub yielded: Seq<Json>,
}

/// Issuing a request counts it, unless the pager is done.
pub open spec fn after_request(v: PagerView) -> PagerView {
    if v.done {
        v
    } else {
        PagerView { requests: v.requests + 1, ..v }
    }
}

/// A page hands out its items and sets the next token; an empty token
/// ends the paging, whatever the number of items.
pub open spec fn after_page(v: PagerView, token: Seq<char>, items: Seq<Json>) -> PagerView {
    PagerView { continu: token, done: token.len() == 0, yielded: v.yielded + items, ..v }
}

/// A page that does not read ends the paging.
pub open spec fn after_bad_page(v: PagerView) -> PagerView {
    PagerView { done: true, ..v }
}

/// `a` and `b` are the same list options but for `continue`.
pub open spec fn same_but_continue(a: ListOptions, b: ListOptions) -> bool {
    &&& a.resource_version == b.resource_version
    &&& a.timeout_seconds == b.timeout_seconds
    &&& a.watch == b.watch
    &&& a.pretty == b.pretty
    &&& a.field_selector == b.field_selector
    &&& a.label_selector == b.label_selector
    &&& a.include_uninitialized == b.include_uninitialized
    &&& a.limit == b.limit
}

/// Pages through a list: each request is the caller's list request with
/// `continue` set to the last page's token. Requests go one at a time,
/// and paging stops at the first page without a token.
pub struct Pager {
    namespace: Option<String>,
    opts: ListOptions,
    done: bool,
    requests: Ghost<nat>,
    yielded: Ghost<Seq<Json>>,
}

impl View for Pager {
    type V = PagerView;

    closed spec fn view(&self) -> PagerView {
        PagerView { continu: self.opts.continu@, done: self.done, requests: self.requests@, yielded: self.yielded@ }
    }
}

impl Pager {
    pub closed spec fn spec_namespace(&self) -> Option<Seq<char>> {
        opt_view(self.namespace)
    }

    /// The options of the next request.
    pub closed spec fn spec_opts(&self) -> ListOptions {
        self.opts
    }

    pub closed spec fn wf(&self) -> bool {
        self.opts.continu@ == self@.continu
    }

    pub fn new(namespace: Option<String>, opts: ListOptions) -> (r: Pager)
        ensures
            r@ == (PagerView { continu: opts.continu@, done: false, requests: 0, yielded: seq![] }),
            r.wf(),
            r.spec_namespace() == opt_view(namespace),
            r.spec_opts() == opts,
    {
        Pager { namespace, opts, done: false, requests: Ghost(0), yielded: Ghost(Seq::empty()) }
    }

    /// The next list request, or nothing once the pager is done.
    pub fn next_request(&mut self, gvr: &GroupVersionResource) -> (r: Option<Request>)
        requires
            old(self).wf(),
        ensures
            final(self).wf(),
            final(self)@ == after_request(old(self)@),
            final(self).spec_opts() == old(self).spec_opts(),
            final(self).spec_namespace() == old(self).spec_namespace(),
            r is Some <==> !old(self)@.done,
            r matches Some(req) ==> req@ == (RequestView {
                group: gvr.group@,
                version: gvr.version@,
                resource: gvr.resource@,
                namespace: old(self).spec_namespace(),
                name: None,
                subresource: None,
                method: Method::Get,
                opts: old(self).spec_opts().spec_query(),
                content_type: None,
                body: seq![],
            }),
    {
        if self.done {
            return None;
        }
        self.requests = Ghost(self.requests@ + 1);
        let g = GroupVersionResource {
            group: copy_string(&gvr.group),
            version: copy_string(&gvr.version),
            resource: copy_string(&gvr.resource),
        };
        Some(Request::builder(g)
            .namespace_maybe(copy_opt(&self.namespace))
            .method(Method::Get)
            .opts(self.opts.query_pairs())
            .build())
    }

    /// Takes in one page: returns its items and keeps its token for the
    /// next request, all other options unchanged. A page that does not
    /// read is an error and ends the paging.
    pub fn on_page(&mut self, page: Json) -> (r: Result<Vec<Json>, ApiError>)
        requires
            old(self).wf(),
        ensures
            final(self).wf(),
            final(self).spec_namespace() == old(self).spec_namespace(),
            same_but_continue(final(self).spec_opts(), old(self).spec_opts()),
            page_ok(page) ==> {
                &&& r matches Ok(items) && items@ == page_items(page)
                &&& final(self)@ == after_page(old(self)@, page_token(page), page_items(page))
                &&& final(self).spec_opts().continu@ == page_token(page)
            },
            !page_ok(page) ==> {
                &&& r == Err::<Vec<Json>, ApiError>(ApiError::MalformedList)
                &&& final(self)@ == after_bad_page(old(self)@)
                &&& final(self).spec_opts() == old(self).spec_opts()
            },
    {
        match page_parts(page) {
            Ok((token, items)) => {
                self.done = token.as_str().unicode_len() == 0;
                self.opts.continu = token;
                self.yielded = Ghost(self.yielded@ + items@);
                Ok(items)
            },
            Err(e) => {
                self.done = true;
                Err(e)
            },
        }
    }

    pub fn is_done(&self) -> (r: bool)
        ensures
            r == self@.done,
    {
        self.done
    }
}

/// One request and the page that answers it.
pub open spec fn step(v: PagerView, page: Json) -> PagerView {
    if page_ok(page) {
        after_page(after_request(v), page_token(page), page_items(page))
    } else {
        after_bad_page(after_request(v))
    }
}

/// A pager's course over a run of pages, answered in order: request,
/// page, request, page, ... until a page ends it.
pub open spec fn run_pages(v: PagerView, pages: Seq<Json>) -> PagerView
    decreases pages.len(),
{
    if pages.len() == 0 || v.done {
        v
    } else {
        run_pages(step(v, pages[0]), pages.drop_first())
    }
}

/// The items of the pages, one page after the other.
pub open spec fn all_items(pages: Seq<Json>) -> Seq<Json>
    decreases pages.len(),
{
    if pages.len() == 0 {
        Seq::empty()
    } else {
        page_items(pages[0]) + all_items(pages.drop_first())
    }
}

/// Every page reads; every page but the last carries a token; the last
/// carries none.
pub open spec fn chained(pages: Seq<Json>) -> bool {
    &&& pages.len() > 0
    &&& forall|i: int| 0 <= i < pages.len() ==> page_ok(#[trigger] pages[i])
    &&& forall|i: int| 0 <= i < pages.len() - 1 ==> page_token(#[trigger] pages[i]).len() > 0
    &&& page_token(pages.last()).len() == 0
}

/// Every page reads and carries a token.
pub open spec fn all_tokened(pages: Seq<Json>) -> bool {
    forall|i: int| 0 <= i < pages.len() ==> page_ok(#[trigger] pages[i]) && page_token(pages[i]).len() > 0
}

proof fn lemma_run_chained(v: PagerView, pages: Seq<Json>)
    requires
        !v.done,
        chained(pages),
    ensures
        run_pages(v, pages).requests == v.requests + pages.len(),
        run_pages(v, pages).yielded == v.yielded + all_items(pages),
        run_pages(v, pages).done,
    decreases pages.len(),
{
    assert(page_ok(pages[0]));
    let v1 = step(v, pages[0]);
    let rest = pages.drop_first();
    if pages.len() == 1 {
        assert(pages.last() == pages[0]);
        assert(all_items(rest) == Seq::<Json>::empty());
        assert(all_items(pages) =~= page_items(pages[0]));
        assert(run_pages(v1, rest) == v1);
    } else {
        assert(page_token(pages[0]).len() > 0);
        assert(chained(rest)) by {
            assert(rest.last() == pages.last());
            assert forall|i: int| 0 <= i < rest.len() implies page_ok(#[trigger] rest[i]) by {
                assert(rest[i] == pages[i + 1]);
            }
            assert forall|i: int| 0 <= i < rest.len() - 1 implies page_token(#[trigger] rest[i]).len() > 0 by {
                assert(rest[i] == pages[i + 1]);
            }
        }
        lemma_run_chained(v1, rest);
        assert(v.yielded + all_items(pages) =~= v1.yielded + all_items(rest));
    }
}

proof fn lemma_run_tokened(v: PagerView, pages: Seq<Json>)
    requires
        !v.done,
        all_tokened(pages),
    ensures
        !run_pages(v, pages).done,
        run_pages(v, pages).requests == v.requests + pages.len(),
        run_pages(v, pages).yielded == v.yielded + all_items(pages),
        pages.len() > 0 ==> run_pages(v, pages).continu == page_token(pages.last()),
    decreases pages.len(),
{
    if pages.len() > 0 {
        assert(page_ok(pages[0]) && page_token(pages[0]).len() > 0);
        let v1 = step(v, pages[0]);
        let rest = pages.drop_first();
        assert(all_tokened(rest)) by {
            assert forall|i: int| 0 <= i < rest.len() implies page_ok(#[trigger] rest[i]) && page_token(rest[i]).len() > 0 by {
                assert(rest[i] == pages[i + 1]);
            }
        }
        lemma_run_tokened(v1, rest);
        assert(v.yielded + all_items(pages) =~= v1.yielded + all_items(rest));
        if rest.len() > 0 {
            assert(rest.last() == pages.last());
        } else {
            assert(pages.last() == pages[0]);
        }
    } else {
        assert(v.yielded + all_items(pages) =~= v.yielded);
    }
}

proof fn lemma_run_push(v: PagerView, pages: Seq<Json>, p: Json)
    ensures
        run_pages(v, pages.push(p)) == if run_pages(v, pages).done {
            run_pages(v, pages)
        } else {
            step(run_pages(v, pages), p)
        },
    decreases pages.len(),
{
    if pages.len() == 0 {
        assert(pages.push(p).drop_first() =~= Seq::<Json>::empty());
        assert(run_pages(v, pages) == v);
        if !v.done {
            assert(pages.push(p)[0] == p);
            assert(run_pages(step(v, p), Seq::<Json>::empty()) == step(v, p));
        }
    } else if !v.done {
        assert(pages.push(p).drop_first() =~= pages.drop_first().push(p));
        assert(pages.push(p)[0] == pages[0]);
        lemma_run_push(step(v, pages[0]), pages.drop_first(), p);
    }
}

/// The state of a fresh pager.
pub open spec fn fresh() -> PagerView {
    PagerView { continu: Seq::empty(), done: false, requests: 0, yielded: seq![] }
}

/// Paging terminates and keeps order: over pages that all read and each
/// carry a token but the last, a fresh pager issues exactly one request
/// per page, hands out all their items in order, and then issues no more.
pub proof fn pagination_follows_tokens(pages: Seq<Json>)
    requires
        chained(pages),
    ensures
        ({
            let end = run_pages(fresh(), pages);
            &&& end.requests == pages.len()
            &&& end.yielded == all_items(pages)
            &&& end.done
            &&& after_request(end) == end
        }),
{
    lemma_run_chained(fresh(), pages);
    assert(fresh().yielded + all_items(pages) =~= all_items(pages));
}

/// A page that carries a token does not end paging, even with no items:
/// after pages `0..=k` that all read and carry tokens, wherever page `k`
/// stands, the pager has issued `k + 1` requests, handed out their items,
/// and issues exactly one more, with page `k`'s token; the items of the
/// page that answers it come next.
pub proof fn paging_continues_after_tokened_page(pages: Seq<Json>, k: int)
    requires
        0 <= k,
        k + 1 < pages.len(),
        forall|i: int| 0 <= i <= k ==> page_ok(#[trigger] pages[i]) && page_token(pages[i]).len() > 0,
    ensures
        ({
            let mid = run_pages(fresh(), pages.subrange(0, k + 1));
            &&& !mid.done
            &&& mid.requests == k + 1
            &&& mid.continu == page_token(pages[k])
            &&& mid.yielded == all_items(pages.subrange(0, k + 1))
            &&& after_request(mid).requests == k + 2
            &&& run_pages(fresh(), pages.subrange(0, k + 2)) == step(mid, pages[k + 1])
            &&& page_ok(pages[k + 1]) ==> run_pages(fresh(), pages.subrange(0, k + 2)).yielded
                == mid.yielded + page_items(pages[k + 1])
        }),
{
    let pre = pages.subrange(0, k + 1);
    assert(all_tokened(pre)) by {
        assert forall|i: int| 0 <= i < pre.len() implies page_ok(#[trigger] pre[i]) && page_token(pre[i]).len() > 0 by {
            assert(pre[i] == pages[i]);
        }
    }
    lemma_run_tokened(fresh(), pre);
    assert(pre.last() == pages[k]);
    assert(fresh().yielded + all_items(pre) =~= all_items(pre));
    assert(pages.subrange(0, k + 2) =~= pre.push(pages[k + 1]));
    lemma_run_push(fresh(), pre, pages[k + 1]);
}

} // verus!
