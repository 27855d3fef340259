//! Object metadata and the discovery types of the API.

use vstd::prelude::*;
use std::collections::HashMap;
use crate::json::{Json, field, text};
use crate::status::Status;
use crate::text::opt_view;

verus! {

/// Metadata that every persisted object carries.
#[derive(Debug, Clone, Default, PartialEq, Eq)]
pub struct ObjectMeta {
    pub cluster_name: Option<String>,
    pub name: Option<String>,
    pub namespace: Option<String>,
    pub creation_timestamp: Option<String>,
    pub deletion_grace_period_seconds: Option<i32>,
    pub deletion_timestamp: Option<String>,
    pub finalizers: Vec<String>,
    pub generate_name: Option<String>,
    pub generation: Option<i32>,
    pub initializers: Option<Initializers>,
    pub annotations: HashMap<String, String>,
    pub labels: HashMap<String, String>,
    pub owner_references: Vec<OwnerReference>,
    pub resource_version: Option<String>,
    pub self_link: Option<String>,
    pub uid: Option<String>,
}

/// Initializers that have yet to run on an object.
#[derive(Debug, Clone, Default, PartialEq, Eq)]
pub struct Initializers {
    pub pending: Vec<Initializer>,
    pub result: Option<Status>,
}

#[derive(Debug, Clone, PartialEq, Eq)]
pub struct Initializer {
    pub name: String,
}

/// A link from an object to the object that owns it.
#[derive(Debug, Clone, PartialEq, Eq)]
pub struct OwnerReference {
    pub api_version: String,
    pub kind: String,
    pub name: String,
    pub uid: String,
    pub block_owner_deletion: bool,
    pub controller: bool,
}

#[derive(Debug, Clone, Copy, PartialEq, Eq)]
pub enum LabelSelectorOperator {
    In,
    NotIn,
    Exists,
    DoesNotExist,
}

#[derive(Debug, Clone, PartialEq, Eq)]
pub struct LabelSelectorRequirement {
    pub key: String,
    pub operator: LabelSelectorOperator,
    pub values: Vec<String>,
}

/// The resources that one group version serves.
#[derive(Debug, Clone, PartialEq, Eq)]
pub struct APIResourceList {
    pub group_version: String,
    pub resources: Vec<APIResource>,
}

#[derive(Debug, Clone, PartialEq, Eq)]
pub struct APIResource {
    pub name: String,
    pub singular_name: String,
    pub namespaced: bool,
    pub group: Option<String>,
    pub version: Option<String>,
    pub kind: String,
    pub verbs: Vec<String>,
    pub short_names: Vec<String>,
    pub categories: Vec<String>,
}

#[derive(Debug, Clone, PartialEq, Eq)]
pub struct APIGroupList {
    pub groups: Vec<APIGroup>,
}

#[derive(Debug, Clone, PartialEq, Eq)]
pub struct APIGroup {
    pub name: String,
    pub versions: GroupVersionForDiscovery,
    pub preferred_version: Option<GroupVersionForDiscovery>,
    pub server_address_by_client_cidrs: Vec<ServerAddressByClientCIDR>,
}

#[derive(Debug, Clone, PartialEq, Eq)]
pub struct GroupVersionForDiscovery {
    pub group_version: String,
    pub version: String,
}

#[derive(Debug, Clone, PartialEq, Eq)]
pub struct ServerAddressByClientCIDR {
    pub client_cidr: String,
    pub server_address: String,
}

/// An object with its type information and metadata.
pub trait Metadata {
    fn api_version(&self) -> String;

    fn kind(&self) -> String;

    fn metadata(&self) -> ObjectMeta;
}

/// The text member `key` of the object's `metadata`.
pub open spec fn meta_text(j: Json, key: Seq<char>) -> Option<Seq<char>> {
    match field(j, "metadata"@) {
        Some(m) => text(field(m, key)),
        None => None,
    }
}

fn meta_member(j: &Json, key: &str) -> (r: Option<String>)
    ensures
        opt_view(r) == meta_text(*j, key@),
{
    match j.get("metadata") {
        Some(m) => m.str_field(key),
        None => None,
    }
}

impl ObjectMeta {
    /// The metadata of an untyped object: its text members; every other
    /// member, and every member that is not text, keeps its default.
    pub fn from_object(j: &Json) -> (r: ObjectMeta)
        ensures
            opt_view(r.name) == meta_text(*j, "name"@),
            opt_view(r.namespace) == meta_text(*j, "namespace"@),
            opt_view(r.generate_name) == meta_text(*j, "generateName"@),
            opt_view(r.resource_version) == meta_text(*j, "resourceVersion"@),
            opt_view(r.self_link) == meta_text(*j, "selfLink"@),
            opt_view(r.uid) == meta_text(*j, "uid"@),
            opt_view(r.cluster_name) == meta_text(*j, "clusterName"@),
            opt_view(r.creation_timestamp) == meta_text(*j, "creationTimestamp"@),
            opt_view(r.deletion_timestamp) == meta_text(*j, "deletionTimestamp"@),
    {
        ObjectMeta {
            cluster_name: meta_member(j, "clusterName"),
            name: meta_member(j, "name"),
            namespace: meta_member(j, "namespace"),
            creation_timestamp: meta_member(j, "creationTimestamp"),
            deletion_grace_period_seconds: None,
            deletion_timestamp: meta_member(j, "deletionTimestamp"),
            finalizers: Vec::new(),
            generate_name: meta_member(j, "generateName"),
            generation: None,
            initializers: None,
            annotations: HashMap::new(),
            labels: HashMap::new(),
            owner_references: Vec::new(),
            resource_version: meta_member(j, "resourceVersion"),
            self_link: meta_member(j, "selfLink"),
            uid: meta_member(j, "uid"),
        }
    }
}

/// The text of a member, or empty.
fn text_or_empty_member(j: &Json, key: &str) -> (r: String)
    ensures
        r@ == match text(field(*j, key@)) {
            Some(t) => t,
            None => Seq::<char>::empty(),
        },
{
    match j.str_field(key) {
        Some(t) => t,
        None => String::new(),
    }
}

impl Metadata for Json {
    /// `apiVersion`, or empty when it is not text.
    fn api_version(&self) -> String {
        text_or_empty_member(self, "apiVersion")
    }

    /// `kind`, or empty when it is not text.
    fn kind(&self) -> String {
        text_or_empty_member(self, "kind")
    }

    fn metadata(&self) -> ObjectMeta {
        ObjectMeta::from_object(self)
    }
}

} // verus!
