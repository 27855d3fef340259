//! Classifying and decoding HTTP responses: a decoded body on success, a
//! structured error otherwise.

use vstd::prelude::*;
use vstd::utf8::{valid_utf8, decode_utf8};
use crate::json::{Json, JsonSyntaxError, json_decode, parse_json};
use crate::request::{APPLICATION_JSON, opt_str_view};
use crate::status::{Status, status_ok, status_read};
use crate::text::str_eq;
use crate::number::{parse_u64, spec_parse_u64};

verus! {

/// Relies on String::from_utf8, which accepts exactly the valid UTF-8
/// byte strings and keeps their characters.
#[verifier::external_body]
fn utf8_text(b: &[u8]) -> (r: Option<String>)
    ensures
        r is Some <==> valid_utf8(b@),
        r matches Some(s) ==> s@ == decode_utf8(b@),
{
    String::from_utf8(b.to_vec()).ok()
}

/// Line `n` of `s`, counted from 0; lines end at `\n`, which they do not
/// include. Past the last line it is empty.
pub open spec fn line_of(s: Seq<u8>, n: nat) -> Seq<u8>
    decreases s.len(),
{
    if s.len() == 0 {
        seq![]
    } else if s[0] == 10u8 {
        if n == 0 { seq![] } else { line_of(s.drop_first(), (n - 1) as nat) }
    } else if n == 0 {
        seq![s[0]] + line_of(s.drop_first(), 0)
    } else {
        line_of(s.drop_first(), n)
    }
}

/// Copies a byte slice.
pub fn copy_bytes(b: &[u8]) -> (r: Vec<u8>)
    ensures
        r@ == b@,
{
    let mut r: Vec<u8> = Vec::new();
    let mut i: usize = 0;
    while i < b.len()
        invariant
            i <= b@.len(),
            r@ == b@.subrange(0, i as int),
        decreases b@.len() - i,
    {
        r.push(b[i]);
        proof {
            assert(r@ =~= b@.subrange(0, i + 1));
        }
        i = i + 1;
    }
    proof {
        assert(b@.subrange(0, b@.len() as int) =~= b@);
    }
    r
}

/// Line `n` of `s`, counted from 0.
pub fn line_at(s: &[u8], n: usize) -> (r: Vec<u8>)
    ensures
        r@ == line_of(s@, n as nat),
{
    let mut acc: Vec<u8> = Vec::new();
    let mut k: usize = n;
    let mut i: usize = 0;
    proof {
        assert(s@.subrange(0, s@.len() as int) =~= s@);
    }
    while i < s.len()
        invariant
            i <= s@.len(),
            k <= n,
            k > 0 ==> acc@.len() == 0,
            line_of(s@, n as nat) == acc@ + line_of(s@.subrange(i as int, s@.len() as int), k as nat),
        decreases s@.len() - i,
    {
        let ghost rest = s@.subrange(i as int, s@.len() as int);
        proof {
            assert(rest.drop_first() =~= s@.subrange(i + 1, s@.len() as int));
            assert(rest[0] == s@[i as int]);
        }
        let b = s[i];
        if b == 10u8 {
            if k == 0 {
                proof {
                    assert(acc@ + Seq::<u8>::empty() =~= acc@);
                }
                return acc;
            }
            k = k - 1;
        } else if k == 0 {
            let ghost before = acc@;
            acc.push(b);
            proof {
                assert(acc@ =~= before + seq![b]);
                assert(before + (seq![b] + line_of(s@.subrange(i + 1, s@.len() as int), 0))
                    =~= acc@ + line_of(s@.subrange(i + 1, s@.len() as int), 0));
            }
        }
        i = i + 1;
    }
    proof {
        assert(acc@ + Seq::<u8>::empty() =~= acc@);
    }
    acc
}

/// Up to 1024 bytes of line `line` (counted from 1) that precede column
/// `column`, cut at the line's end.
pub open spec fn snippet_of(input: Seq<u8>, line: nat, column: nat) -> Seq<u8> {
    if line == 0 {
        seq![]
    } else {
        let l = line_of(input, (line - 1) as nat);
        let end = if column < l.len() { column as int } else { l.len() as int };
        let from = if column >= 1024 { column - 1024 } else { 0 };
        let start = if from < end { from as int } else { end };
        l.subrange(start, end)
    }
}

/// A body that should have been JSON and was not, with where it broke.
#[derive(Debug, Clone, PartialEq, Eq)]
pub struct DecodeError {
    pub line: usize,
    pub column: usize,
    pub input: Vec<u8>,
}

impl DecodeError {
    pub fn new(cause: &JsonSyntaxError, input: Vec<u8>) -> (r: DecodeError)
        ensures
            r.line == cause.line,
            r.column == cause.column,
            r.input@ == input@,
    {
        DecodeError { line: cause.line, column: cause.column, input }
    }

    /// The input that precedes the error on its line, at most 1024 bytes.
    pub fn snippet(&self) -> (r: Vec<u8>)
        ensures
            r@ == snippet_of(self.input@, self.line as nat, self.column as nat),
    {
        if self.line == 0 {
            return Vec::new();
        }
        let l = line_at(self.input.as_slice(), self.line - 1);
        let end = if self.column < l.len() { self.column } else { l.len() };
        let from = if self.column >= 1024 { self.column - 1024 } else { 0 };
        let start = if from < end { from } else { end };
        let mut r: Vec<u8> = Vec::new();
        let mut i: usize = start;
        while i < end
            invariant
                start <= i <= end,
                end <= l@.len(),
                r@ == l@.subrange(start as int, i as int),
            decreases end - i,
        {
            r.push(l[i]);
            proof {
                assert(r@ =~= l@.subrange(start as int, i + 1));
            }
            i = i + 1;
        }
        r
    }

    /// `unable to parse: ` and the snippet, when the snippet is text.
    pub fn to_string(&self) -> (r: String)
        ensures
            r@ == "unable to parse: "@ + ({
                let s = snippet_of(self.input@, self.line as nat, self.column as nat);
                if valid_utf8(s) { decode_utf8(s) } else { Seq::<char>::empty() }
            }),
    {
        let mut r = "unable to parse: ".to_owned();
        let s = self.snippet();
        match utf8_text(s.as_slice()) {
            Some(t) => r.append(t.as_str()),
            None => {
                proof {
                    assert(r@ + Seq::<char>::empty() =~= r@);
                }
            },
        }
        r
    }
}

/// A header value as text, if it is text.
pub open spec fn value_number(v: Option<String>) -> Option<u64> {
    match v {
        Some(t) => spec_parse_u64(t@),
        None => None,
    }
}

/// The length that a set of `Content-Length` values states: one number,
/// repeated by every value. Several values are fine only when they agree.
pub open spec fn content_length_of(values: Seq<Option<String>>) -> Option<u64> {
    if values.len() > 0 && value_number(values[0]) is Some
        && forall|i: int| 0 <= i < values.len() ==> #[trigger] value_number(values[i]) == value_number(values[0]) {
        value_number(values[0])
    } else {
        None
    }
}

/// Folds the `Content-Length` values of a response into one length; `None`
/// stands for a value that is not text.
pub fn content_length_parse_all_values(values: &Vec<Option<String>>) -> (r: Option<u64>)
    ensures
        r == content_length_of(values@),
{
    if values.len() == 0 {
        return None;
    }
    let first = match &values[0] {
        Some(t) => parse_u64(t.as_str()),
        None => None,
    };
    let n = match first {
        Some(n) => n,
        None => return None,
    };
    let mut i: usize = 1;
    while i < values.len()
        invariant
            1 <= i <= values@.len(),
            value_number(values@[0]) == Some(n),
            forall|k: int| 0 <= k < i ==> #[trigger] value_number(values@[k]) == Some(n),
        decreases values@.len() - i,
    {
        let v = match &values[i] {
            Some(t) => parse_u64(t.as_str()),
            None => None,
        };
        if v != Some(n) {
            proof {
                assert(value_number(values@[i as int]) != value_number(values@[0]));
            }
            return None;
        }
        i = i + 1;
    }
    Some(n)
}

/// A success whose content type this client does not read.
#[derive(Debug, Clone, PartialEq, Eq)]
pub struct UnknownContentTypeError {
    pub value: String,
}

/// What a call can fail with.
#[derive(Debug, Clone, PartialEq, Eq)]
pub enum ApiError {
    /// The base URL cannot take a path.
    InvalidBaseUrl(String),
    /// The transport failed; its own words.
    Transport(String),
    /// A body that should have been JSON was not.
    Decode(DecodeError),
    /// A body was JSON, but not of the shape expected; the body.
    Malformed(Vec<u8>),
    /// A list page without an `items` array, or whose metadata does not
    /// read.
    MalformedList,
    /// A success with a content type other than JSON.
    UnknownContentType(UnknownContentTypeError),
    /// The server's own account of a failure.
    Api(Status),
    /// A failure whose body was not a Status: only its HTTP status.
    HttpStatus(u16),
}

/// A decoded successful response.
#[derive(Debug, Clone, PartialEq, Eq)]
pub struct Response<B> {
    status: u16,
    body: B,
}

pub open spec fn is_success(code: u16) -> bool {
    200 <= code && code <= 299
}

/// The error that a failed response stands for: the Status in its body,
/// or else its HTTP status alone.
pub open spec fn error_read(code: u16, body: Seq<u8>, e: ApiError) -> bool {
    match json_decode(body) {
        Some(j) => if status_ok(j) {
            e matches ApiError::Api(s) && status_read(j, s)
        } else {
            e == ApiError::HttpStatus(code)
        },
        None => e == ApiError::HttpStatus(code),
    }
}

/// The status code is in the success range, 2xx.
pub fn is_success_code(code: u16) -> (r: bool)
    ensures
        r == is_success(code),
{
    200 <= code && code <= 299
}

/// The error for a response that did not succeed.
pub fn status_error(code: u16, body: &[u8]) -> (r: ApiError)
    ensures
        error_read(code, body@, r),
{
    match parse_json(body) {
        Ok(j) => match Status::from_json(&j) {
            Ok(s) => ApiError::Api(s),
            Err(_) => ApiError::HttpStatus(code),
        },
        Err(_) => ApiError::HttpStatus(code),
    }
}

impl Status {
    /// Reads a Status out of a body: a decode error when the body is not
    /// JSON, a malformed-body error when it is JSON of another shape.
    pub fn from_vec(body: Vec<u8>) -> (r: Result<Status, ApiError>)
        ensures
            match json_decode(body@) {
                Some(j) => if status_ok(j) {
                    r matches Ok(s) && status_read(j, s)
                } else {
                    r matches Err(ApiError::Malformed(b)) && b@ == body@
                },
                None => r matches Err(ApiError::Decode(e)) && e.input@ == body@,
            },
    {
        match parse_json(body.as_slice()) {
            Ok(j) => match Status::from_json(&j) {
                Ok(s) => Ok(s),
                Err(_) => Err(ApiError::Malformed(body)),
            },
            Err(e) => Err(ApiError::Decode(DecodeError::new(&e, body))),
        }
    }
}

impl<B> Response<B> {
    pub closed spec fn spec_status(&self) -> u16 {
        self.status
    }

    pub closed spec fn spec_body(&self) -> B {
        self.body
    }

    /// A `200 OK` response.
    pub fn ok(body: B) -> (r: Response<B>)
        ensures
            r.spec_status() == 200,
            r.spec_body() == body,
    {
        Response { status: 200, body }
    }

    pub fn status(&self) -> (r: u16)
        ensures
            r == self.spec_status(),
    {
        self.status
    }

    pub fn body(&self) -> (r: &B)
        ensures
            *r == self.spec_body(),
    {
        &self.body
    }

    pub fn into_body(self) -> (r: B)
        ensures
            r == self.spec_body(),
    {
        self.body
    }
}

impl Response<Json> {
    /// Decodes a raw response. On success the content type decides: JSON is
    /// parsed, none reads as `null`, any other is refused. A failure becomes
    /// the Status in its body, or else its HTTP status.
    pub fn from_http_response(code: u16, content_type: Option<&str>, body: &[u8]) -> (r: Result<Response<Json>, ApiError>)
        ensures
            !is_success(code) ==> (r matches Err(e) && error_read(code, body@, e)),
            is_success(code) && content_type is None ==> (r matches Ok(resp)
                && resp.spec_status() == code && resp.spec_body() == Json::Null),
            is_success(code) && (content_type matches Some(ct) && ct@ == APPLICATION_JSON@) ==> (
                match json_decode(body@) {
                    Some(j) => r matches Ok(resp) && resp.spec_status() == code && resp.spec_body() == j,
                    None => r matches Err(ApiError::Decode(e)) && e.input@ == body@,
                }),
            is_success(code) && (content_type matches Some(ct) && ct@ != APPLICATION_JSON@) ==> (
                r matches Err(ApiError::UnknownContentType(e)) && Some(e.value@) == opt_str_view(content_type)),
    {
        if !is_success_code(code) {
            return Err(status_error(code, body));
        }
        match content_type {
            None => Ok(Response { status: code, body: Json::Null }),
            Some(ct) => {
                if str_eq(ct, APPLICATION_JSON) {
                    match parse_json(body) {
                        Ok(j) => Ok(Response { status: code, body: j }),
                        Err(e) => Err(ApiError::Decode(DecodeError::new(&e, copy_bytes(body)))),
                    }
                } else {
                    Err(ApiError::UnknownContentType(UnknownContentTypeError { value: ct.to_owned() }))
                }
            },
        }
    }
}

} // verus!
