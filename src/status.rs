//! The API's outcome payload, `Status`, and the list metadata that comes
//! with every list.

use vstd::prelude::*;
use crate::json::{Json, field, text};
use crate::number::{parse_i32, spec_parse_i32};
use crate::text::{opt_view, str_eq, copy_string};

verus! {

/// A member that is absent or `null`.
pub open spec fn is_unset(f: Option<Json>) -> bool {
    f is None || f == Some(Json::Null)
}

/// An optional text member reads: unset, or a string.
pub open spec fn opt_text_ok(f: Option<Json>) -> bool {
    is_unset(f) || f matches Some(Json::Str(_))
}

/// Reads an optional text member: unset gives `None`, a string its text,
/// anything else an error.
pub fn opt_text_member(j: &Json, key: &str) -> (r: Result<Option<String>, ()>)
    ensures
        r is Ok <==> opt_text_ok(field(*j, key@)),
        r matches Ok(v) ==> opt_view(v) == text(field(*j, key@)),
{
    match j.get(key) {
        None => Ok(None),
        Some(Json::Null) => Ok(None),
        Some(Json::Str(s)) => Ok(Some(copy_string(s))),
        Some(_) => Err(()),
    }
}

/// A text member with a default: unset reads as empty.
pub open spec fn text_or_empty(f: Option<Json>) -> Seq<char> {
    match text(f) {
        Some(t) => t,
        None => Seq::empty(),
    }
}

/// An integer member reads: unset (when `allow_unset`), or a number that
/// is an `i32`.
pub open spec fn int_ok(f: Option<Json>, allow_unset: bool) -> bool {
    match f {
        None => allow_unset,
        Some(Json::Number(t)) => spec_parse_i32(t@) is Some,
        _ => false,
    }
}

pub open spec fn int_val(f: Option<Json>) -> Option<i32> {
    match f {
        Some(Json::Number(t)) => spec_parse_i32(t@),
        _ => None,
    }
}

fn int_member(j: &Json, key: &str) -> (r: Result<Option<i32>, ()>)
    ensures
        r is Ok <==> (field(*j, key@) is None || int_ok(field(*j, key@), false)),
        r matches Ok(v) ==> v == int_val(field(*j, key@)),
{
    match j.get(key) {
        None => Ok(None),
        Some(Json::Number(t)) => match parse_i32(t.as_str()) {
            Some(v) => Ok(Some(v)),
            None => Err(()),
        },
        Some(_) => Err(()),
    }
}

fn opt_int_member(j: &Json, key: &str) -> (r: Result<Option<i32>, ()>)
    ensures
        r is Ok <==> (is_unset(field(*j, key@)) || int_ok(field(*j, key@), false)),
        r matches Ok(v) ==> v == int_val(field(*j, key@)),
{
    match j.get(key) {
        Some(Json::Null) => Ok(None),
        _ => int_member(j, key),
    }
}

/// Whether an operation succeeded.
#[derive(Debug, Clone, Copy, PartialEq, Eq)]
pub enum StatusStatus {
    Success,
    Failure,
}

impl StatusStatus {
    pub open spec fn spec_name(self) -> Seq<char> {
        match self {
            StatusStatus::Success => "Success"@,
            StatusStatus::Failure => "Failure"@,
        }
    }

    pub fn from_name(s: &str) -> (r: Option<StatusStatus>)
        ensures
            r matches Some(x) ==> x.spec_name() == s@,
            r is None ==> forall|x: StatusStatus| x.spec_name() != s@,
    {
        if str_eq(s, "Success") {
            Some(StatusStatus::Success)
        } else if str_eq(s, "Failure") {
            Some(StatusStatus::Failure)
        } else {
            None
        }
    }

    pub fn name(self) -> (r: &'static str)
        ensures
            r@ == self.spec_name(),
    {
        match self {
            StatusStatus::Success => "Success",
            StatusStatus::Failure => "Failure",
        }
    }
}

/// Why an operation failed, in a few words the API fixes.
#[derive(Debug, Clone, Copy, PartialEq, Eq)]
pub enum StatusReason {
    Unauthorized,
    Forbidden,
    NotFound,
    AlreadyExists,
    Conflict,
    Gone,
    Invalid,
    ServerTimeout,
    Timeout,
    TooManyRequests,
    BadRequest,
    MethodNotAllowed,
    InternalError,
    Expired,
    ServiceUnavailable,
}

impl StatusReason {
    pub open spec fn spec_name(self) -> Seq<char> {
        match self {
            StatusReason::Unauthorized => "Unauthorized"@,
            StatusReason::Forbidden => "Forbidden"@,
            StatusReason::NotFound => "NotFound"@,
            StatusReason::AlreadyExists => "AlreadyExists"@,
            StatusReason::Conflict => "Conflict"@,
            StatusReason::Gone => "Gone"@,
            StatusReason::Invalid => "Invalid"@,
            StatusReason::ServerTimeout => "ServerTimeout"@,
            StatusReason::Timeout => "Timeout"@,
            StatusReason::TooManyRequests => "TooManyRequests"@,
            StatusReason::BadRequest => "BadRequest"@,
            StatusReason::MethodNotAllowed => "MethodNotAllowed"@,
            StatusReason::InternalError => "InternalError"@,
            StatusReason::Expired => "Expired"@,
            StatusReason::ServiceUnavailable => "ServiceUnavailable"@,
        }
    }

    pub fn name(self) -> (r: &'static str)
        ensures
            r@ == self.spec_name(),
    {
        match self {
            StatusReason::Unauthorized => "Unauthorized",
            StatusReason::Forbidden => "Forbidden",
            StatusReason::NotFound => "NotFound",
            StatusReason::AlreadyExists => "AlreadyExists",
            StatusReason::Conflict => "Conflict",
            StatusReason::Gone => "Gone",
            StatusReason::Invalid => "Invalid",
            StatusReason::ServerTimeout => "ServerTimeout",
            StatusReason::Timeout => "Timeout",
            StatusReason::TooManyRequests => "TooManyRequests",
            StatusReason::BadRequest => "BadRequest",
            StatusReason::MethodNotAllowed => "MethodNotAllowed",
            StatusReason::InternalError => "InternalError",
            StatusReason::Expired => "Expired",
            StatusReason::ServiceUnavailable => "ServiceUnavailable",
        }
    }

    /// The reason named `s`.
    pub fn from_name(s: &str) -> (r: Option<StatusReason>)
        ensures
            r matches Some(x) ==> x.spec_name() == s@,
            r is None ==> forall|x: StatusReason| x.spec_name() != s@,
    {
        if str_eq(s, "Unauthorized") {
            Some(StatusReason::Unauthorized)
        } else if str_eq(s, "Forbidden") {
            Some(StatusReason::Forbidden)
        } else if str_eq(s, "NotFound") {
            Some(StatusReason::NotFound)
        } else if str_eq(s, "AlreadyExists") {
            Some(StatusReason::AlreadyExists)
        } else if str_eq(s, "Conflict") {
            Some(StatusReason::Conflict)
        } else if str_eq(s, "Gone") {
            Some(StatusReason::Gone)
        } else if str_eq(s, "Invalid") {
            Some(StatusReason::Invalid)
        } else if str_eq(s, "ServerTimeout") {
            Some(StatusReason::ServerTimeout)
        } else if str_eq(s, "Timeout") {
            Some(StatusReason::Timeout)
        } else if str_eq(s, "TooManyRequests") {
            Some(StatusReason::TooManyRequests)
        } else if str_eq(s, "BadRequest") {
            Some(StatusReason::BadRequest)
        } else if str_eq(s, "MethodNotAllowed") {
            Some(StatusReason::MethodNotAllowed)
        } else if str_eq(s, "InternalError") {
            Some(StatusReason::InternalError)
        } else if str_eq(s, "Expired") {
            Some(StatusReason::Expired)
        } else if str_eq(s, "ServiceUnavailable") {
            Some(StatusReason::ServiceUnavailable)
        } else {
            None
        }
    }
}

/// What kind of problem a cause reports.
#[derive(Debug, Clone, Copy, PartialEq, Eq)]
pub enum CauseType {
    FieldValueNotFound,
    FieldValueRequired,
    FieldValueDuplicate,
    FieldValueInvalid,
    FieldValueNotSupported,
    UnexpectedServerResponse,
}

impl CauseType {
    pub open spec fn spec_name(self) -> Seq<char> {
        match self {
            CauseType::FieldValueNotFound => "FieldValueNotFound"@,
            CauseType::FieldValueRequired => "FieldValueRequired"@,
            CauseType::FieldValueDuplicate => "FieldValueDuplicate"@,
            CauseType::FieldValueInvalid => "FieldValueInvalid"@,
            CauseType::FieldValueNotSupported => "FieldValueNotSupported"@,
            CauseType::UnexpectedServerResponse => "UnexpectedServerResponse"@,
        }
    }

    pub fn name(self) -> (r: &'static str)
        ensures
            r@ == self.spec_name(),
    {
        match self {
            CauseType::FieldValueNotFound => "FieldValueNotFound",
            CauseType::FieldValueRequired => "FieldValueRequired",
            CauseType::FieldValueDuplicate => "FieldValueDuplicate",
            CauseType::FieldValueInvalid => "FieldValueInvalid",
            CauseType::FieldValueNotSupported => "FieldValueNotSupported",
            CauseType::UnexpectedServerResponse => "UnexpectedServerResponse",
        }
    }

    pub fn from_name(s: &str) -> (r: Option<CauseType>)
        ensures
            r matches Some(x) ==> x.spec_name() == s@,
            r is None ==> forall|x: CauseType| x.spec_name() != s@,
    {
        if str_eq(s, "FieldValueNotFound") {
            Some(CauseType::FieldValueNotFound)
        } else if str_eq(s, "FieldValueRequired") {
            Some(CauseType::FieldValueRequired)
        } else if str_eq(s, "FieldValueDuplicate") {
            Some(CauseType::FieldValueDuplicate)
        } else if str_eq(s, "FieldValueInvalid") {
            Some(CauseType::FieldValueInvalid)
        } else if str_eq(s, "FieldValueNotSupported") {
            Some(CauseType::FieldValueNotSupported)
        } else if str_eq(s, "UnexpectedServerResponse") {
            Some(CauseType::UnexpectedServerResponse)
        } else {
            None
        }
    }
}

/// An enumerated member reads: unset, or the name of a variant.
pub open spec fn reason_ok(f: Option<Json>) -> bool {
    is_unset(f) || (f matches Some(Json::Str(t)) && exists|x: StatusReason| x.spec_name() == t@)
}

pub open spec fn status_status_ok(f: Option<Json>) -> bool {
    is_unset(f) || (f matches Some(Json::Str(t)) && exists|x: StatusStatus| x.spec_name() == t@)
}

pub open spec fn cause_type_ok(f: Option<Json>) -> bool {
    is_unset(f) || (f matches Some(Json::Str(t)) && exists|x: CauseType| x.spec_name() == t@)
}

/// `v` is what an enumerated member `f` read as: nothing when unset, else
/// the variant of that name.
pub open spec fn reason_read(f: Option<Json>, v: Option<StatusReason>) -> bool {
    match f {
        Some(Json::Str(t)) => v matches Some(x) && x.spec_name() == t@,
        _ => v is None,
    }
}

pub open spec fn status_status_read(f: Option<Json>, v: Option<StatusStatus>) -> bool {
    match f {
        Some(Json::Str(t)) => v matches Some(x) && x.spec_name() == t@,
        _ => v is None,
    }
}

pub open spec fn cause_type_read(f: Option<Json>, v: Option<CauseType>) -> bool {
    match f {
        Some(Json::Str(t)) => v matches Some(x) && x.spec_name() == t@,
        _ => v is None,
    }
}

fn reason_member(j: &Json, key: &str) -> (r: Result<Option<StatusReason>, ()>)
    ensures
        r is Ok <==> reason_ok(field(*j, key@)),
        r matches Ok(v) ==> reason_read(field(*j, key@), v),
{
    match j.get(key) {
        None => Ok(None),
        Some(Json::Null) => Ok(None),
        Some(Json::Str(t)) => match StatusReason::from_name(t.as_str()) {
            Some(x) => Ok(Some(x)),
            None => Err(()),
        },
        Some(_) => Err(()),
    }
}

fn status_status_member(j: &Json, key: &str) -> (r: Result<Option<StatusStatus>, ()>)
    ensures
        r is Ok <==> status_status_ok(field(*j, key@)),
        r matches Ok(v) ==> status_status_read(field(*j, key@), v),
{
    match j.get(key) {
        None => Ok(None),
        Some(Json::Null) => Ok(None),
        Some(Json::Str(t)) => match StatusStatus::from_name(t.as_str()) {
            Some(x) => Ok(Some(x)),
            None => Err(()),
        },
        Some(_) => Err(()),
    }
}

fn cause_type_member(j: &Json, key: &str) -> (r: Result<Option<CauseType>, ()>)
    ensures
        r is Ok <==> cause_type_ok(field(*j, key@)),
        r matches Ok(v) ==> cause_type_read(field(*j, key@), v),
{
    match j.get(key) {
        None => Ok(None),
        Some(Json::Null) => Ok(None),
        Some(Json::Str(t)) => match CauseType::from_name(t.as_str()) {
            Some(x) => Ok(Some(x)),
            None => Err(()),
        },
        Some(_) => Err(()),
    }
}

/// A text member with a default reads: absent, or a string.
pub open spec fn text_default_ok(f: Option<Json>) -> bool {
    f is None || f matches Some(Json::Str(_))
}

fn text_default_member(j: &Json, key: &str) -> (r: Result<String, ()>)
    ensures
        r is Ok <==> text_default_ok(field(*j, key@)),
        r matches Ok(v) ==> v@ == text_or_empty(field(*j, key@)),
{
    match j.get(key) {
        None => Ok(String::new()),
        Some(Json::Str(s)) => Ok(copy_string(s)),
        Some(_) => Err(()),
    }
}

/// The object carries no type information, or exactly `api_version` and
/// `kind`.
pub open spec fn type_meta_ok(j: Json, api_version: Seq<char>, kind: Seq<char>) -> bool {
    ||| (is_unset(field(j, "apiVersion"@)) && is_unset(field(j, "kind"@)))
    ||| (text(field(j, "apiVersion"@)) == Some(api_version) && text(field(j, "kind"@)) == Some(kind))
}

/// Checks the `apiVersion` and `kind` members of an object.
pub fn check_type_meta(j: &Json, api_version: &str, kind: &str) -> (r: bool)
    ensures
        r == type_meta_ok(*j, api_version@, kind@),
{
    let a = j.get("apiVersion");
    let k = j.get("kind");
    let a_unset = match a {
        None => true,
        Some(Json::Null) => true,
        _ => false,
    };
    let k_unset = match k {
        None => true,
        Some(Json::Null) => true,
        _ => false,
    };
    if a_unset && k_unset {
        return true;
    }
    match (a, k) {
        (Some(Json::Str(x)), Some(Json::Str(y))) => str_eq(x.as_str(), api_version) && str_eq(y.as_str(), kind),
        _ => false,
    }
}

/// Metadata of a list; `continu` is the continuation token.
#[derive(Debug, Clone, Default, PartialEq, Eq)]
pub struct ListMeta {
    pub continu: Option<String>,
    pub resource_version: String,
    pub self_link: String,
}

pub open spec fn list_meta_ok(j: Json) -> bool {
    &&& j is Object
    &&& opt_text_ok(field(j, "continue"@))
    &&& text_default_ok(field(j, "resourceVersion"@))
    &&& text_default_ok(field(j, "selfLink"@))
}

/// `m` holds what the object `j` says.
pub open spec fn list_meta_read(j: Json, m: ListMeta) -> bool {
    &&& opt_view(m.continu) == text(field(j, "continue"@))
    &&& m.resource_version@ == text_or_empty(field(j, "resourceVersion"@))
    &&& m.self_link@ == text_or_empty(field(j, "selfLink"@))
}

impl ListMeta {
    pub fn from_json(j: &Json) -> (r: Result<ListMeta, ()>)
        ensures
            r is Ok <==> list_meta_ok(*j),
            r matches Ok(m) ==> list_meta_read(*j, m),
    {
        if !j.is_object() {
            return Err(());
        }
        let continu = opt_text_member(j, "continue")?;
        let resource_version = text_default_member(j, "resourceVersion")?;
        let self_link = text_default_member(j, "selfLink")?;
        Ok(ListMeta { continu, resource_version, self_link })
    }

    /// The continuation token, empty when there is none.
    pub fn continue_token(&self) -> (r: String)
        ensures
            r@ == match opt_view(self.continu) {
                Some(t) => t,
                None => Seq::<char>::empty(),
            },
    {
        match &self.continu {
            Some(t) => copy_string(t),
            None => String::new(),
        }
    }
}

/// One field-level cause of a failure.
#[derive(Debug, Clone, PartialEq, Eq)]
pub struct StatusCause {
    pub field: String,
    pub message: Option<String>,
    pub reason: Option<CauseType>,
}

pub open spec fn cause_ok(j: Json) -> bool {
    &&& j is Object
    &&& text(field(j, "field"@)) is Some
    &&& opt_text_ok(field(j, "message"@))
    &&& cause_type_ok(field(j, "reason"@))
}

pub open spec fn cause_read(j: Json, c: StatusCause) -> bool {
    &&& text(field(j, "field"@)) == Some(c.field@)
    &&& opt_view(c.message) == text(field(j, "message"@))
    &&& cause_type_read(field(j, "reason"@), c.reason)
}

impl StatusCause {
    pub fn from_json(j: &Json) -> (r: Result<StatusCause, ()>)
        ensures
            r is Ok <==> cause_ok(*j),
            r matches Ok(c) ==> cause_read(*j, c),
    {
        if !j.is_object() {
            return Err(());
        }
        let f = match j.get("field") {
            Some(Json::Str(s)) => copy_string(s),
            _ => return Err(()),
        };
        let message = opt_text_member(j, "message")?;
        let reason = cause_type_member(j, "reason")?;
        Ok(StatusCause { field: f, message, reason })
    }
}

/// More about a failure: the object it concerns and its causes.
#[derive(Debug, Clone, Default, PartialEq, Eq)]
pub struct StatusDetails {
    pub causes: Vec<StatusCause>,
    pub group: Option<String>,
    pub kind: Option<String>,
    pub name: Option<String>,
    pub retry_after_seconds: Option<i32>,
    pub uid: Option<String>,
}

/// The `causes` member reads: absent, or an array of causes.
pub open spec fn causes_ok(f: Option<Json>) -> bool {
    match f {
        None => true,
        Some(Json::Array(a)) => forall|i: int| 0 <= i < a@.len() ==> cause_ok(#[trigger] a@[i]),
        _ => false,
    }
}

pub open spec fn causes_read(f: Option<Json>, cs: Seq<StatusCause>) -> bool {
    match f {
        Some(Json::Array(a)) => cs.len() == a@.len()
            && forall|i: int| 0 <= i < a@.len() ==> cause_read(#[trigger] a@[i], cs[i]),
        _ => cs.len() == 0,
    }
}

pub open spec fn details_ok(j: Json) -> bool {
    &&& j is Object
    &&& causes_ok(field(j, "causes"@))
    &&& opt_text_ok(field(j, "group"@))
    &&& opt_text_ok(field(j, "kind"@))
    &&& opt_text_ok(field(j, "name"@))
    &&& (is_unset(field(j, "retryAfterSeconds"@)) || int_ok(field(j, "retryAfterSeconds"@), false))
    &&& opt_text_ok(field(j, "uid"@))
}

pub open spec fn details_read(j: Json, d: StatusDetails) -> bool {
    &&& causes_read(field(j, "causes"@), d.causes@)
    &&& opt_view(d.group) == text(field(j, "group"@))
    &&& opt_view(d.kind) == text(field(j, "kind"@))
    &&& opt_view(d.name) == text(field(j, "name"@))
    &&& d.retry_after_seconds == int_val(field(j, "retryAfterSeconds"@))
    &&& opt_view(d.uid) == text(field(j, "uid"@))
}

fn causes_from_json(a: &Vec<Json>) -> (r: Result<Vec<StatusCause>, ()>)
    ensures
        r is Ok <==> forall|i: int| 0 <= i < a@.len() ==> cause_ok(#[trigger] a@[i]),
        r matches Ok(cs) ==> cs@.len() == a@.len()
            && forall|i: int| 0 <= i < a@.len() ==> cause_read(#[trigger] a@[i], cs@[i]),
{
    let mut cs: Vec<StatusCause> = Vec::new();
    let mut i: usize = 0;
    while i < a.len()
        invariant
            i <= a@.len(),
            cs@.len() == i,
            forall|k: int| 0 <= k < i ==> cause_ok(#[trigger] a@[k]),
            forall|k: int| 0 <= k < i ==> cause_read(#[trigger] a@[k], cs@[k]),
        decreases a@.len() - i,
    {
        let c = StatusCause::from_json(&a[i])?;
        cs.push(c);
        i = i + 1;
    }
    Ok(cs)
}

impl StatusDetails {
    pub fn from_json(j: &Json) -> (r: Result<StatusDetails, ()>)
        ensures
            r is Ok <==> details_ok(*j),
            r matches Ok(d) ==> details_read(*j, d),
    {
        if !j.is_object() {
            return Err(());
        }
        let causes = match j.get("causes") {
            None => Vec::new(),
            Some(Json::Array(a)) => causes_from_json(a)?,
            Some(_) => return Err(()),
        };
        let group = opt_text_member(j, "group")?;
        let kind = opt_text_member(j, "kind")?;
        let name = opt_text_member(j, "name")?;
        let retry_after_seconds = opt_int_member(j, "retryAfterSeconds")?;
        let uid = opt_text_member(j, "uid")?;
        Ok(StatusDetails { causes, group, kind, name, retry_after_seconds, uid })
    }
}

/// The API's outcome payload, most often the reason a call failed.
#[derive(Debug, Clone, Default, PartialEq, Eq)]
pub struct Status {
    pub metadata: ListMeta,
    pub code: i32,
    pub details: Option<StatusDetails>,
    pub message: Option<String>,
    pub reason: Option<StatusReason>,
    pub status: Option<StatusStatus>,
}

/// The object `j` reads as a Status.
pub open spec fn status_ok(j: Json) -> bool {
    &&& j is Object
    &&& type_meta_ok(j, "v1"@, "Status"@)
    &&& (field(j, "metadata"@) matches Some(m) ==> list_meta_ok(m))
    &&& (field(j, "code"@) is None || int_ok(field(j, "code"@), false))
    &&& (field(j, "details"@) matches Some(d) ==> (d == Json::Null || details_ok(d)))
    &&& opt_text_ok(field(j, "message"@))
    &&& reason_ok(field(j, "reason"@))
    &&& status_status_ok(field(j, "status"@))
}

/// `s` holds what the object `j` says; absent members take their defaults.
pub open spec fn status_read(j: Json, s: Status) -> bool {
    &&& (match field(j, "metadata"@) {
        Some(m) => list_meta_read(m, s.metadata),
        None => s.metadata.continu is None && s.metadata.resource_version@.len() == 0
            && s.metadata.self_link@.len() == 0,
    })
    &&& s.code == (match int_val(field(j, "code"@)) {
        Some(v) => v,
        None => 0,
    })
    &&& (match field(j, "details"@) {
        Some(Json::Null) => s.details is None,
        Some(d) => s.details matches Some(x) && details_read(d, x),
        None => s.details is None,
    })
    &&& opt_view(s.message) == text(field(j, "message"@))
    &&& reason_read(field(j, "reason"@), s.reason)
    &&& status_status_read(field(j, "status"@), s.status)
}

/// The opening of a Status's text: its reason, else its status written
/// as an option.
pub open spec fn status_head(s: Status) -> Seq<char> {
    match s.reason {
        Some(r) => r.spec_name(),
        None => match s.status {
            Some(x) => "Some("@ + x.spec_name() + ")"@,
            None => "None"@,
        },
    }
}

/// `, caused by` and the cause's message, else its reason, else nothing.
pub open spec fn cause_text(c: StatusCause) -> Seq<char> {
    match opt_view(c.message) {
        Some(m) => ", caused by "@ + m,
        None => match c.reason {
            Some(r) => ", caused by "@ + r.spec_name(),
            None => Seq::empty(),
        },
    }
}

pub open spec fn causes_text(cs: Seq<StatusCause>) -> Seq<char>
    decreases cs.len(),
{
    if cs.len() == 0 {
        Seq::empty()
    } else {
        causes_text(cs.drop_last()) + cause_text(cs.last())
    }
}

/// The text of a Status: head, then `: message`, then its causes.
pub open spec fn status_text(s: Status) -> Seq<char> {
    status_head(s) + (match opt_view(s.message) {
        Some(m) => ": "@ + m,
        None => Seq::empty(),
    }) + (match s.details {
        Some(d) => causes_text(d.causes@),
        None => Seq::empty(),
    })
}

impl Status {
    /// The Status as one line of text for people.
    pub fn to_string(&self) -> (r: String)
        ensures
            r@ == status_text(*self),
    {
        let mut r = match self.reason {
            Some(x) => x.name().to_owned(),
            None => match self.status {
                Some(x) => {
                    let mut t = "Some(".to_owned();
                    t.append(x.name());
                    t.append(")");
                    t
                },
                None => "None".to_owned(),
            },
        };
        match &self.message {
            Some(m) => {
                r.append(": ");
                r.append(m.as_str());
            },
            None => {
                proof {
                    assert(r@ + Seq::<char>::empty() =~= r@);
                }
            },
        }
        let ghost head = r@;
        match &self.details {
            Some(d) => {
                let mut i: usize = 0;
                proof {
                    assert(d.causes@.subrange(0, 0) =~= Seq::<StatusCause>::empty());
                    assert(r@ + Seq::<char>::empty() =~= r@);
                }
                while i < d.causes.len()
                    invariant
                        i <= d.causes@.len(),
                        r@ == head + causes_text(d.causes@.subrange(0, i as int)),
                    decreases d.causes@.len() - i,
                {
                    let c = &d.causes[i];
                    let ghost before = r@;
                    match &c.message {
                        Some(m) => {
                            r.append(", caused by ");
                            r.append(m.as_str());
                        },
                        None => match c.reason {
                            Some(x) => {
                                r.append(", caused by ");
                                r.append(x.name());
                            },
                            None => {},
                        },
                    }
                    proof {
                        let sub = d.causes@.subrange(0, i + 1);
                        assert(sub.drop_last() =~= d.causes@.subrange(0, i as int));
                        assert(sub.last() == d.causes@[i as int]);
                        assert(r@ =~= before + cause_text(d.causes@[i as int]));
                    }
                    i = i + 1;
                }
                proof {
                    assert(d.causes@.subrange(0, d.causes@.len() as int) =~= d.causes@);
                }
            },
            None => {
                proof {
                    assert(r@ + Seq::<char>::empty() =~= r@);
                }
            },
        }
        r
    }

    /// Reads a Status out of a JSON document.
    pub fn from_json(j: &Json) -> (r: Result<Status, ()>)
        ensures
            r is Ok <==> status_ok(*j),
            r matches Ok(s) ==> status_read(*j, s),
    {
        if !j.is_object() {
            return Err(());
        }
        if !check_type_meta(j, "v1", "Status") {
            return Err(());
        }
        let metadata = match j.get("metadata") {
            None => ListMeta { continu: None, resource_version: String::new(), self_link: String::new() },
            Some(m) => ListMeta::from_json(m)?,
        };
        let code = match int_member(j, "code")? {
            Some(v) => v,
            None => 0,
        };
        let details = match j.get("details") {
            None => None,
            Some(Json::Null) => None,
            Some(d) => Some(StatusDetails::from_json(d)?),
        };
        let message = opt_text_member(j, "message")?;
        let reason = reason_member(j, "reason")?;
        let status = status_status_member(j, "status")?;
        Ok(Status { metadata, code, details, message, reason, status })
    }
}

} // verus!
