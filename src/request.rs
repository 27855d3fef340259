//! Canonical REST requests: URL paths, query strings and the request
//! builder.

use vstd::prelude::*;
use crate::group::{GroupVersionResource, spec_api_prefix};
use crate::options::{QueryPairs, pairs_view};
use crate::scope::ResourceScope;
use crate::text::{opt_view, copy_string, copy_opt};

verus! {

pub const APPLICATION_JSON: &'static str = "application/json";

pub const JSON_PATCH: &'static str = "application/json-patch+json";

pub const MERGE_PATCH: &'static str = "application/merge-patch+json";

pub const STRATEGIC_MERGE_PATCH: &'static str = "application/strategic-merge-patch+json";

/// The HTTP verbs the API uses.
#[derive(Debug, Clone, Copy, PartialEq, Eq)]
pub enum Method {
    Get,
    Post,
    Put,
    Patch,
    Delete,
}

impl Method {
    pub open spec fn spec_as_str(self) -> Seq<char> {
        match self {
            Method::Get => "GET"@,
            Method::Post => "POST"@,
            Method::Put => "PUT"@,
            Method::Patch => "PATCH"@,
            Method::Delete => "DELETE"@,
        }
    }

    pub fn as_str(self) -> (r: &'static str)
        ensures
            r@ == self.spec_as_str(),
    {
        match self {
            Method::Get => "GET",
            Method::Post => "POST",
            Method::Put => "PUT",
            Method::Patch => "PATCH",
            Method::Delete => "DELETE",
        }
    }
}

/// A change to an object in one of three wire dialects; each holds the
/// JSON text of the patch document.
#[derive(Debug, Clone, PartialEq, Eq)]
pub enum Patch {
    Json(Vec<u8>),
    Merge(Vec<u8>),
    StrategicMerge(Vec<u8>),
}

impl Patch {
    pub open spec fn spec_content_type(&self) -> Seq<char> {
        match self {
            Patch::Json(_) => JSON_PATCH@,
            Patch::Merge(_) => MERGE_PATCH@,
            Patch::StrategicMerge(_) => STRATEGIC_MERGE_PATCH@,
        }
    }

    pub open spec fn spec_document(&self) -> Seq<u8> {
        match self {
            Patch::Json(d) => d@,
            Patch::Merge(d) => d@,
            Patch::StrategicMerge(d) => d@,
        }
    }

    /// The content type that names the dialect.
    pub fn content_type(&self) -> (r: &'static str)
        ensures
            r@ == self.spec_content_type(),
    {
        match self {
            Patch::Json(_) => JSON_PATCH,
            Patch::Merge(_) => MERGE_PATCH,
            Patch::StrategicMerge(_) => STRATEGIC_MERGE_PATCH,
        }
    }

    /// The patch document.
    pub fn into_document(self) -> (r: Vec<u8>)
        ensures
            r@ == self.spec_document(),
    {
        match self {
            Patch::Json(d) => d,
            Patch::Merge(d) => d,
            Patch::StrategicMerge(d) => d,
        }
    }
}

/// `s` is left as it is by form encoding.
pub open spec fn unreserved(c: char) -> bool {
    c == '*' || c == '-' || c == '.' || c == '_' || ('0' <= c && c <= '9') || ('A' <= c && c <= 'Z')
        || ('a' <= c && c <= 'z')
}

/// The `application/x-www-form-urlencoded` form of a string.
pub uninterp spec fn form_escaped(s: Seq<char>) -> Seq<char>;

/// Relies on url::form_urlencoded::byte_serialize, which keeps the bytes
/// `*-._`, digits and ASCII letters and escapes all others.
#[verifier::external_body]
fn form_escape(s: &str) -> (r: String)
    ensures
        r@ == form_escaped(s@),
        (forall|i: int| 0 <= i < s@.len() ==> unreserved(#[trigger] s@[i])) ==> r@ == s@,
{
    url::form_urlencoded::byte_serialize(s.as_bytes()).collect()
}

/// `name=value`, both form encoded.
pub open spec fn pair_text(p: (Seq<char>, Seq<char>)) -> Seq<char> {
    form_escaped(p.0) + seq!['='] + form_escaped(p.1)
}

/// The pairs joined by `&`.
pub open spec fn query_text(ps: Seq<(Seq<char>, Seq<char>)>) -> Seq<char>
    decreases ps.len(),
{
    if ps.len() == 0 {
        seq![]
    } else if ps.len() == 1 {
        pair_text(ps[0])
    } else {
        query_text(ps.drop_last()) + seq!['&'] + pair_text(ps.last())
    }
}

/// Every character of `s` is left as it is by form encoding.
pub open spec fn all_unreserved(s: Seq<char>) -> bool {
    forall|i: int| 0 <= i < s.len() ==> unreserved(#[trigger] s[i])
}

/// Every name and value of the pairs is left as it is.
pub open spec fn pairs_unreserved(ps: Seq<(Seq<char>, Seq<char>)>) -> bool {
    forall|i: int| 0 <= i < ps.len() ==> all_unreserved((#[trigger] ps[i]).0) && all_unreserved(ps[i].1)
}

/// Each name or value of the pairs that form encoding leaves as it is
/// stands in the query as written.
pub open spec fn escapes_known(ps: Seq<(Seq<char>, Seq<char>)>) -> bool {
    forall|i: int| 0 <= i < ps.len() ==> {
        &&& (all_unreserved((#[trigger] ps[i]).0) ==> form_escaped(ps[i].0) == ps[i].0)
        &&& (all_unreserved(ps[i].1) ==> form_escaped(ps[i].1) == ps[i].1)
    }
}

/// The pairs written `name=value` and joined by `&`, with no escaping.
pub open spec fn plain_query(ps: Seq<(Seq<char>, Seq<char>)>) -> Seq<char>
    decreases ps.len(),
{
    if ps.len() == 0 {
        seq![]
    } else if ps.len() == 1 {
        ps[0].0 + seq!['='] + ps[0].1
    } else {
        plain_query(ps.drop_last()) + seq!['&'] + ps.last().0 + seq!['='] + ps.last().1
    }
}

/// Where escaping leaves every name and value as it is, the query is the
/// plain `name=value` pairs joined by `&`.
pub proof fn lemma_plain_query(ps: Seq<(Seq<char>, Seq<char>)>)
    requires
        escapes_known(ps),
        pairs_unreserved(ps),
    ensures
        query_text(ps) == plain_query(ps),
    decreases ps.len(),
{
    if ps.len() > 0 {
        let n = ps.len() - 1;
        assert(ps.last() == ps[n]);
        assert(all_unreserved(ps[n].0) && all_unreserved(ps[n].1));
        if ps.len() > 1 {
            let pre = ps.drop_last();
            assert(escapes_known(pre)) by {
                assert forall|i: int| 0 <= i < pre.len() implies {
                    &&& (all_unreserved((#[trigger] pre[i]).0) ==> form_escaped(pre[i].0) == pre[i].0)
                    &&& (all_unreserved(pre[i].1) ==> form_escaped(pre[i].1) == pre[i].1)
                } by {
                    assert(pre[i] == ps[i]);
                }
            }
            assert(pairs_unreserved(pre)) by {
                assert forall|i: int| 0 <= i < pre.len() implies all_unreserved((#[trigger] pre[i]).0) && all_unreserved(pre[i].1) by {
                    assert(pre[i] == ps[i]);
                }
            }
            lemma_plain_query(pre);
            assert(query_text(ps) =~= plain_query(ps));
        } else {
            assert(query_text(ps) =~= plain_query(ps));
        }
    }
}

/// Form encodes the pairs into a query string.
pub fn encode_query(pairs: &QueryPairs) -> (r: String)
    ensures
        r@ == query_text(pairs_view(pairs@)),
        escapes_known(pairs_view(pairs@)),
        pairs_unreserved(pairs_view(pairs@)) ==> r@ == plain_query(pairs_view(pairs@)),
{
    let mut r = String::new();
    let mut i: usize = 0;
    while i < pairs.len()
        invariant
            i <= pairs@.len(),
            r@ == query_text(pairs_view(pairs@).subrange(0, i as int)),
            escapes_known(pairs_view(pairs@).subrange(0, i as int)),
        decreases pairs@.len() - i,
    {
        let ghost pre = pairs_view(pairs@).subrange(0, i as int);
        proof {
            reveal_strlit("&");
            reveal_strlit("=");
            let ps = pairs_view(pairs@).subrange(0, i + 1);
            assert(ps.drop_last() =~= pairs_view(pairs@).subrange(0, i as int));
        }
        if i > 0 {
            r.append("&");
        }
        let k = form_escape(pairs[i].0.as_str());
        let v = form_escape(pairs[i].1.as_str());
        r.append(k.as_str());
        r.append("=");
        r.append(v.as_str());
        proof {
            let all = pairs_view(pairs@);
            let next = all.subrange(0, i + 1);
            assert(all[i as int] == (pairs@[i as int].0@, pairs@[i as int].1@));
            assert forall|j: int| 0 <= j < next.len() implies {
                &&& (all_unreserved((#[trigger] next[j]).0) ==> form_escaped(next[j].0) == next[j].0)
                &&& (all_unreserved(next[j].1) ==> form_escaped(next[j].1) == next[j].1)
            } by {
                if j < i {
                    assert(next[j] == pre[j]);
                } else {
                    assert(next[j] == all[i as int]);
                }
            }
        }
        i = i + 1;
    }
    proof {
        assert(pairs_view(pairs@).subrange(0, pairs@.len() as int) =~= pairs_view(pairs@));
        if pairs_unreserved(pairs_view(pairs@)) {
            lemma_plain_query(pairs_view(pairs@));
        }
    }
    r
}

/// `/s`.
pub open spec fn seg(s: Seq<char>) -> Seq<char> {
    seq!['/'] + s
}

pub open spec fn opt_seg(o: Option<Seq<char>>) -> Seq<char> {
    match o {
        Some(s) => seg(s),
        None => seq![],
    }
}

/// The path of a request:
/// `/{api|apis}[/{group}]/{version}[/namespaces/{ns}]/{resource}[/{name}][/{subresource}]`,
/// then `?{query}` when the query is not empty.
pub open spec fn spec_url_path(
    group: Seq<char>,
    version: Seq<char>,
    resource: Seq<char>,
    namespace: Option<Seq<char>>,
    name: Option<Seq<char>>,
    subresource: Option<Seq<char>>,
    query: Seq<char>,
) -> Seq<char> {
    let path = seg(spec_api_prefix(group, version))
        + (if group.len() == 0 { Seq::<char>::empty() } else { seg(group) })
        + seg(version)
        + (match namespace {
            Some(ns) => seg("namespaces"@) + seg(ns),
            None => Seq::<char>::empty(),
        })
        + seg(resource)
        + opt_seg(name)
        + opt_seg(subresource);
    if query.len() == 0 {
        path
    } else {
        path + seq!['?'] + query
    }
}

pub open spec fn opt_str_view(o: Option<&str>) -> Option<Seq<char>> {
    match o {
        Some(s) => Some(s@),
        None => None,
    }
}

fn push_seg(path: &mut String, s: &str)
    ensures
        final(path)@ == old(path)@ + seg(s@),
{
    proof {
        reveal_strlit("/");
    }
    path.append("/");
    path.append(s);
}

/// Builds the path and query of a request.
pub fn url_path(
    gvr: &GroupVersionResource,
    namespace: Option<&str>,
    name: Option<&str>,
    subresource: Option<&str>,
    opts: &QueryPairs,
) -> (r: String)
    ensures
        r@ == spec_url_path(
            gvr.group@,
            gvr.version@,
            gvr.resource@,
            opt_str_view(namespace),
            opt_str_view(name),
            opt_str_view(subresource),
            query_text(pairs_view(opts@)),
        ),
        escapes_known(pairs_view(opts@)),
        pairs_unreserved(pairs_view(opts@)) ==> r@ == spec_url_path(
            gvr.group@,
            gvr.version@,
            gvr.resource@,
            opt_str_view(namespace),
            opt_str_view(name),
            opt_str_view(subresource),
            plain_query(pairs_view(opts@)),
        ),
{
    let gv = gvr.as_gv();
    let mut path = String::new();
    push_seg(&mut path, gv.api_prefix());
    if gvr.group.as_str().unicode_len() != 0 {
        push_seg(&mut path, gvr.group.as_str());
    }
    push_seg(&mut path, gvr.version.as_str());
    if let Some(ns) = namespace {
        push_seg(&mut path, "namespaces");
        push_seg(&mut path, ns);
    }
    push_seg(&mut path, gvr.resource.as_str());
    if let Some(n) = name {
        push_seg(&mut path, n);
    }
    if let Some(sub) = subresource {
        push_seg(&mut path, sub);
    }
    let query = encode_query(opts);
    if query.as_str().unicode_len() != 0 {
        proof {
            reveal_strlit("?");
        }
        path.append("?");
        path.append(query.as_str());
    }
    path
}

/// A request seen as plain values.
pub struct RequestView {
    pub group: Seq<char>,
    pub version: Seq<char>,
    pub resource: Seq<char>,
    pub namespace: Option<Seq<char>>,
    pub name: Option<Seq<char>>,
    pub subresource: Option<Seq<char>>,
    pub method: Method,
    pub opts: Seq<(Seq<char>, Seq<char>)>,
    pub content_type: Option<Seq<char>>,
    pub body: Seq<u8>,
}

impl RequestView {
    /// The path and query of this request when escaping changes nothing.
    pub open spec fn plain_path(self) -> Seq<char> {
        spec_url_path(
            self.group,
            self.version,
            self.resource,
            self.namespace,
            self.name,
            self.subresource,
            plain_query(self.opts),
        )
    }

    /// The path and query that this request goes to.
    pub open spec fn path(self) -> Seq<char> {
        spec_url_path(
            self.group,
            self.version,
            self.resource,
            self.namespace,
            self.name,
            self.subresource,
            query_text(self.opts),
        )
    }
}

/// One REST call, fully described.
#[derive(Debug)]
pub struct Request {
    pub group: String,
    pub version: String,
    pub resource: String,
    pub namespace: Option<String>,
    pub name: Option<String>,
    pub subresource: Option<String>,
    pub method: Method,
    pub opts: QueryPairs,
    pub content_type: Option<&'static str>,
    pub body: Vec<u8>,
}

impl View for Request {
    type V = RequestView;

    open spec fn view(&self) -> RequestView {
        RequestView {
            group: self.group@,
            version: self.version@,
            resource: self.resource@,
            namespace: opt_view(self.namespace),
            name: opt_view(self.name),
            subresource: opt_view(self.subresource),
            method: self.method,
            opts: pairs_view(self.opts@),
            content_type: opt_str_view(self.content_type),
            body: self.body@,
        }
    }
}

/// An HTTP request ready for a transport.
#[derive(Debug)]
pub struct HttpRequest {
    pub method: Method,
    pub uri: String,
    pub headers: Vec<(String, String)>,
    pub body: Vec<u8>,
}

/// A base URL that was refused: it cannot take path segments.
#[derive(Debug, Clone, PartialEq, Eq)]
pub struct InvalidBaseUrl {
    pub base: String,
}

/// `s` parses as a URL that can take path segments.
pub uninterp spec fn accepts_paths(s: Seq<char>) -> bool;

/// Relies on url::Url::parse and Url::cannot_be_a_base: the base parses
/// and its path can hold segments.
#[verifier::external_body]
fn base_accepts_paths(base: &str) -> (r: bool)
    ensures
        r == accepts_paths(base@),
{
    match url::Url::parse(base) {
        Ok(u) => !u.cannot_be_a_base(),
        Err(_) => false,
    }
}

/// The headers that go with a request: `Accept` always, `Content-Type`
/// only with a body.
pub open spec fn spec_headers(content_type: Option<Seq<char>>) -> Seq<(Seq<char>, Seq<char>)> {
    match content_type {
        Some(ct) => seq![("Accept"@, APPLICATION_JSON@), ("Content-Type"@, ct)],
        None => seq![("Accept"@, APPLICATION_JSON@)],
    }
}

impl Request {
    /// A request with no namespace, name, subresource, options or body.
    pub fn builder(gvr: GroupVersionResource) -> (r: Builder)
        ensures
            r@ == (RequestView {
                group: gvr.group@,
                version: gvr.version@,
                resource: gvr.resource@,
                namespace: None,
                name: None,
                subresource: None,
                method: Method::Get,
                opts: seq![],
                content_type: None,
                body: seq![],
            }),
    {
        let r = Builder {
            req: Request {
                group: gvr.group,
                version: gvr.version,
                resource: gvr.resource,
                namespace: None,
                name: None,
                subresource: None,
                method: Method::Get,
                opts: Vec::new(),
                content_type: None,
                body: Vec::new(),
            },
        };
        proof {
            assert(pairs_view(r.req.opts@) =~= seq![]);
        }
        r
    }

    pub fn gvr(&self) -> (r: GroupVersionResource)
        ensures
            r.group@ == self.group@,
            r.version@ == self.version@,
            r.resource@ == self.resource@,
    {
        GroupVersionResource {
            group: copy_string(&self.group),
            version: copy_string(&self.version),
            resource: copy_string(&self.resource),
        }
    }

    /// The path and query of this request.
    pub fn url_path(&self) -> (r: String)
        ensures
            r@ == self@.path(),
            escapes_known(self@.opts),
            pairs_unreserved(self@.opts) ==> r@ == self@.plain_path(),
    {
        let gvr = self.gvr();
        let ns = match &self.namespace {
            Some(s) => Some(s.as_str()),
            None => None,
        };
        let name = match &self.name {
            Some(s) => Some(s.as_str()),
            None => None,
        };
        let sub = match &self.subresource {
            Some(s) => Some(s.as_str()),
            None => None,
        };
        url_path(&gvr, ns, name, sub, &self.opts)
    }

    /// The HTTP request against `server_base`. The body goes out only when
    /// a content type was set. A base that cannot take a path is refused.
    pub fn into_http_request(self, server_base: &str) -> (r: Result<HttpRequest, InvalidBaseUrl>)
        ensures
            r is Ok <==> accepts_paths(server_base@),
            r matches Ok(h) ==> {
                &&& h.method == self.method
                &&& h.uri@ == server_base@ + self@.path()
                &&& pairs_unreserved(self@.opts) ==> h.uri@ == server_base@ + self@.plain_path()
                &&& pairs_view(h.headers@) == spec_headers(self@.content_type)
                &&& h.body@ == (if self.content_type is Some { self.body@ } else { Seq::<u8>::empty() })
            },
            r matches Err(e) ==> e.base@ == server_base@,
            r is Ok ==> escapes_known(self@.opts),
    {
        if !base_accepts_paths(server_base) {
            return Err(InvalidBaseUrl { base: server_base.to_owned() });
        }
        let mut uri = server_base.to_owned();
        let path = self.url_path();
        uri.append(path.as_str());
        let mut headers: Vec<(String, String)> = Vec::new();
        headers.push(("Accept".to_owned(), APPLICATION_JSON.to_owned()));
        let body = match self.content_type {
            None => Vec::new(),
            Some(ct) => {
                headers.push(("Content-Type".to_owned(), ct.to_owned()));
                self.body
            },
        };
        proof {
            assert(pairs_view(headers@) =~= spec_headers(self@.content_type));
        }
        Ok(HttpRequest { method: self.method, uri, headers, body })
    }
}

/// Builds a `Request` step by step.
#[derive(Debug)]
pub struct Builder {
    req: Request,
}

impl View for Builder {
    type V = RequestView;

    closed spec fn view(&self) -> RequestView {
        self.req@
    }
}

impl Builder {
    pub fn build(self) -> (r: Request)
        ensures
            r@ == self@,
    {
        self.req
    }

    pub fn namespace(self, ns: &str) -> (r: Builder)
        ensures
            r@ == (RequestView { namespace: Some(ns@), ..self@ }),
    {
        let mut b = self;
        b.req.namespace = Some(ns.to_owned());
        b
    }

    pub fn namespace_maybe(self, ns: Option<String>) -> (r: Builder)
        ensures
            r@ == (RequestView { namespace: opt_view(ns), ..self@ }),
    {
        let mut b = self;
        b.req.namespace = ns;
        b
    }

    pub fn name(self, name: &str) -> (r: Builder)
        ensures
            r@ == (RequestView { name: Some(name@), ..self@ }),
    {
        let mut b = self;
        b.req.name = Some(name.to_owned());
        b
    }

    pub fn name_maybe(self, name: Option<String>) -> (r: Builder)
        ensures
            r@ == (RequestView { name: opt_view(name), ..self@ }),
    {
        let mut b = self;
        b.req.name = name;
        b
    }

    /// Takes namespace and name from a scope.
    pub fn scope<S: ResourceScope>(self, scope: &S) -> (r: Builder)
        ensures
            r@ == (RequestView { namespace: scope.spec_namespace(), name: scope.spec_name(), ..self@ }),
    {
        let mut b = self;
        b.req.namespace = scope.namespace();
        b.req.name = scope.name();
        b
    }

    pub fn method(self, method: Method) -> (r: Builder)
        ensures
            r@ == (RequestView { method: method, ..self@ }),
    {
        let mut b = self;
        b.req.method = method;
        b
    }

    pub fn subresource(self, sub: &str) -> (r: Builder)
        ensures
            r@ == (RequestView { subresource: Some(sub@), ..self@ }),
    {
        let mut b = self;
        b.req.subresource = Some(sub.to_owned());
        b
    }

    /// Sets the query parameters.
    pub fn opts(self, opts: QueryPairs) -> (r: Builder)
        ensures
            r@ == (RequestView { opts: pairs_view(opts@), ..self@ }),
    {
        let mut b = self;
        b.req.opts = opts;
        b
    }

    /// Sets the body and its content type.
    pub fn body(self, content_type: &'static str, body: Vec<u8>) -> (r: Builder)
        ensures
            r@ == (RequestView { content_type: Some(content_type@), body: body@, ..self@ }),
    {
        let mut b = self;
        b.req.content_type = Some(content_type);
        b.req.body = body;
        b
    }

    pub fn opts_mut(&mut self) -> (r: &mut QueryPairs)
        ensures
            pairs_view(r@) == old(self)@.opts,
            final(self)@ == (RequestView { opts: pairs_view(final(r)@), ..old(self)@ }),
    {
        &mut self.req.opts
    }

    pub fn body_mut(&mut self) -> (r: &mut Vec<u8>)
        ensures
            r@ == old(self)@.body,
            final(self)@ == (RequestView { body: final(r)@, ..old(self)@ }),
    {
        &mut self.req.body
    }
}

} // verus!
