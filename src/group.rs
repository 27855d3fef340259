//! Identities of API groups, versions, kinds and resources.

use vstd::prelude::*;
use crate::text::{has_char, first_at, find_char, str_eq};

verus! {

/// GroupVersionKind unambiguously identifies a kind.
#[derive(Debug, Clone, PartialEq, Eq)]
pub struct GroupVersionKind {
    pub group: String,
    pub version: String,
    pub kind: String,
}

/// GroupVersion names an API: its group and its version.
#[derive(Debug, Clone, PartialEq, Eq)]
pub struct GroupVersion {
    pub group: String,
    pub version: String,
}

/// GroupKind names a kind within a group, without a version.
#[derive(Debug, Clone, PartialEq, Eq)]
pub struct GroupKind {
    pub group: String,
    pub kind: String,
}

/// GroupVersionResource unambiguously identifies a resource.
#[derive(Debug, Clone, PartialEq, Eq)]
pub struct GroupVersionResource {
    pub group: String,
    pub version: String,
    pub resource: String,
}

/// GroupResource names a resource within a group, without a version.
#[derive(Debug, Clone, PartialEq, Eq)]
pub struct GroupResource {
    pub group: String,
    pub resource: String,
}

/// A "group/version" string with more than one `/`.
#[derive(Debug, Clone, PartialEq, Eq)]
pub struct InvalidGroupVersionError {
    pub value: String,
}

/// The path prefix of an API: `api` for the legacy core group, else `apis`.
pub open spec fn spec_api_prefix(group: Seq<char>, version: Seq<char>) -> Seq<char> {
    if group.len() == 0 && version == seq!['v', '1'] {
        seq!['a', 'p', 'i']
    } else {
        seq!['a', 'p', 'i', 's']
    }
}

fn clone_str(s: &String) -> (r: String)
    ensures
        r@ == s@,
{
    s.as_str().to_owned()
}

impl GroupVersionKind {
    /// Builds the identity of an object's kind from its `apiVersion` and `kind`.
    pub fn from_object(api_version: &str, kind: &str) -> (r: Result<GroupVersionKind, InvalidGroupVersionError>)
        ensures
            r is Ok <==> GroupVersion::parses(api_version@),
            r matches Ok(gvk) ==> {
                &&& gvk.group@ == GroupVersion::parsed_group(api_version@)
                &&& gvk.version@ == GroupVersion::parsed_version(api_version@)
                &&& gvk.kind@ == kind@
            },
            r matches Err(e) ==> e.value@ == api_version@,
    {
        let gv = GroupVersion::from_str(api_version)?;
        Ok(gv.with_kind(kind))
    }

    pub fn as_gv(&self) -> (r: GroupVersion)
        ensures
            r.group@ == self.group@,
            r.version@ == self.version@,
    {
        GroupVersion { group: clone_str(&self.group), version: clone_str(&self.version) }
    }

    pub fn as_gk(&self) -> (r: GroupKind)
        ensures
            r.group@ == self.group@,
            r.kind@ == self.kind@,
    {
        GroupKind { group: clone_str(&self.group), kind: clone_str(&self.kind) }
    }

    /// The form `group/version, Kind=kind`.
    pub fn to_string(&self) -> (r: String)
        ensures
            r@ == self.group@ + seq!['/'] + self.version@ + ", Kind="@ + self.kind@,
    {
        let mut r = clone_str(&self.group);
        r.append("/");
        r.append(self.version.as_str());
        r.append(", Kind=");
        r.append(self.kind.as_str());
        proof {
            reveal_strlit("/");
        }
        r
    }
}

impl GroupVersion {
    /// `s` has at most one `/`.
    pub open spec fn parses(s: Seq<char>) -> bool {
        forall|i: int| first_at(s, '/', i) ==> !has_char(s.subrange(i + 1, s.len() as int), '/')
    }

    /// The group part of `s`: what precedes its first `/`, or empty.
    pub open spec fn parsed_group(s: Seq<char>) -> Seq<char> {
        if has_char(s, '/') {
            s.subrange(0, choose|i: int| first_at(s, '/', i))
        } else {
            Seq::empty()
        }
    }

    /// The version part of `s`: what follows its first `/`, or all of it.
    pub open spec fn parsed_version(s: Seq<char>) -> Seq<char> {
        if has_char(s, '/') {
            s.subrange((choose|i: int| first_at(s, '/', i)) + 1, s.len() as int)
        } else {
            s
        }
    }

    /// Splits "group/version" at its `/`; a string without one is a version
    /// of the legacy core group. More than one `/` is refused.
    pub fn from_str(s: &str) -> (r: Result<GroupVersion, InvalidGroupVersionError>)
        ensures
            !has_char(s@, '/') ==> (r matches Ok(gv) && gv.group@.len() == 0 && gv.version@ == s@),
            forall|i: int| #[trigger] first_at(s@, '/', i) ==> {
                if has_char(s@.subrange(i + 1, s@.len() as int), '/') {
                    (r matches Err(e) && e.value@ == s@)
                } else {
                    (r matches Ok(gv) && gv.group@ == s@.subrange(0, i)
                        && gv.version@ == s@.subrange(i + 1, s@.len() as int))
                }
            },
            r is Ok <==> GroupVersion::parses(s@),
            r matches Ok(gv) ==> (gv.group@ == GroupVersion::parsed_group(s@)
                && gv.version@ == GroupVersion::parsed_version(s@)),
            r matches Err(e) ==> e.value@ == s@,
    {
        let n = s.unicode_len();
        match find_char(s, '/') {
            None => {
                Ok(GroupVersion { group: String::new(), version: s.to_owned() })
            },
            Some(i) => {
                let rest = s.substring_char(i + 1, n);
                proof {
                    assert forall|k: int| #[trigger] first_at(s@, '/', k) implies k == i by {
                        if k < i { } else if k > i { }
                    }
                }
                if find_char(rest, '/').is_some() {
                    Err(InvalidGroupVersionError { value: s.to_owned() })
                } else {
                    let g = s.substring_char(0, i);
                    Ok(GroupVersion { group: g.to_owned(), version: rest.to_owned() })
                }
            },
        }
    }

    pub fn with_kind(self, kind: &str) -> (r: GroupVersionKind)
        ensures
            r.group@ == self.group@,
            r.version@ == self.version@,
            r.kind@ == kind@,
    {
        GroupVersionKind { group: self.group, version: self.version, kind: kind.to_owned() }
    }

    pub fn with_resource(self, rsrc: &str) -> (r: GroupVersionResource)
        ensures
            r.group@ == self.group@,
            r.version@ == self.version@,
            r.resource@ == rsrc@,
    {
        GroupVersionResource { group: self.group, version: self.version, resource: rsrc.to_owned() }
    }

    /// `api` for the legacy core group (empty group, version `v1`), else `apis`.
    pub fn api_prefix(&self) -> (r: &'static str)
        ensures
            r@ == spec_api_prefix(self.group@, self.version@),
    {
        proof {
            reveal_strlit("v1");
            reveal_strlit("api");
            reveal_strlit("apis");
            assert("v1"@ =~= seq!['v', '1']);
            assert("api"@ =~= seq!['a', 'p', 'i']);
            assert("apis"@ =~= seq!['a', 'p', 'i', 's']);
        }
        if self.group.as_str().unicode_len() == 0 && str_eq(self.version.as_str(), "v1") {
            "api"
        } else {
            "apis"
        }
    }

    /// `group/version`, or the version alone for the legacy core group.
    pub fn to_string(&self) -> (r: String)
        ensures
            self.group@.len() == 0 ==> r@ == self.version@,
            self.group@.len() != 0 ==> r@ == self.group@ + seq!['/'] + self.version@,
    {
        proof {
            reveal_strlit("/");
        }
        if self.group.as_str().unicode_len() == 0 {
            clone_str(&self.version)
        } else {
            let mut r = clone_str(&self.group);
            r.append("/");
            r.append(self.version.as_str());
            r
        }
    }
}

impl GroupKind {
    pub fn with_version(self, v: &str) -> (r: GroupVersionKind)
        ensures
            r.group@ == self.group@,
            r.version@ == v@,
            r.kind@ == self.kind@,
    {
        GroupVersionKind { group: self.group, version: v.to_owned(), kind: self.kind }
    }

    /// The form `kind.group`.
    pub fn to_string(&self) -> (r: String)
        ensures
            r@ == self.kind@ + seq!['.'] + self.group@,
    {
        let mut r = clone_str(&self.kind);
        r.append(".");
        r.append(self.group.as_str());
        proof {
            reveal_strlit(".");
        }
        r
    }
}

impl GroupVersionResource {
    pub fn as_gv(&self) -> (r: GroupVersion)
        ensures
            r.group@ == self.group@,
            r.version@ == self.version@,
    {
        GroupVersion { group: clone_str(&self.group), version: clone_str(&self.version) }
    }

    pub fn as_gr(&self) -> (r: GroupResource)
        ensures
            r.group@ == self.group@,
            r.resource@ == self.resource@,
    {
        GroupResource { group: clone_str(&self.group), resource: clone_str(&self.resource) }
    }

    /// The form `group/version, Resource=resource`.
    pub fn to_string(&self) -> (r: String)
        ensures
            r@ == self.group@ + seq!['/'] + self.version@ + ", Resource="@ + self.resource@,
    {
        let mut r = clone_str(&self.group);
        r.append("/");
        r.append(self.version.as_str());
        r.append(", Resource=");
        r.append(self.resource.as_str());
        proof {
            reveal_strlit("/");
        }
        r
    }
}

impl GroupResource {
    /// Turns "resource.group" into a GroupResource, split at the first `.`;
    /// empty parts are allowed.
    pub fn from_str(s: &str) -> (r: Result<GroupResource, ()>)
        ensures
            !has_char(s@, '.') ==> (r matches Ok(gr) && gr.group@.len() == 0 && gr.resource@ == s@),
            forall|i: int| #[trigger] first_at(s@, '.', i) ==> (r matches Ok(gr)
                && gr.resource@ == s@.subrange(0, i)
                && gr.group@ == s@.subrange(i + 1, s@.len() as int)),
            r is Ok,
    {
        let n = s.unicode_len();
        match find_char(s, '.') {
            None => Ok(GroupResource { group: String::new(), resource: s.to_owned() }),
            Some(i) => {
                proof {
                    assert forall|k: int| #[trigger] first_at(s@, '.', k) implies k == i by {
                        if k < i { } else if k > i { }
                    }
                }
                let a = s.substring_char(0, i);
                let b = s.substring_char(i + 1, n);
                Ok(GroupResource { group: b.to_owned(), resource: a.to_owned() })
            },
        }
    }

    pub fn with_version(self, v: &str) -> (r: GroupVersionResource)
        ensures
            r.group@ == self.group@,
            r.version@ == v@,
            r.resource@ == self.resource@,
    {
        GroupVersionResource { group: self.group, version: v.to_owned(), resource: self.resource }
    }

    /// The form `resource.group`.
    pub fn to_string(&self) -> (r: String)
        ensures
            r@ == self.resource@ + seq!['.'] + self.group@,
    {
        let mut r = clone_str(&self.resource);
        r.append(".");
        r.append(self.group.as_str());
        proof {
            reveal_strlit(".");
        }
        r
    }
}

} // verus!
