//! Where within a resource collection an operation points: the whole
//! cluster, one namespace, or one named object.

use vstd::prelude::*;
use crate::text::{opt_view, strings_view, copy_string};

verus! {

/// What a scope contributes to a request: an optional namespace, an
/// optional name, and the path segments that stand for them.
pub trait ResourceScope {
    spec fn spec_namespace(&self) -> Option<Seq<char>>;

    spec fn spec_name(&self) -> Option<Seq<char>>;

    spec fn spec_url_segments(&self) -> Seq<Seq<char>>;

    fn url_segments(&self) -> (r: Vec<String>)
        ensures
            strings_view(r@) == self.spec_url_segments();

    fn name(&self) -> (r: Option<String>)
        ensures
            opt_view(r) == self.spec_name();

    fn namespace(&self) -> (r: Option<String>)
        ensures
            opt_view(r) == self.spec_namespace();
}

/// The segments `namespaces/<ns>`, followed by the name if there is one.
pub open spec fn namespaced_segments(ns: Seq<char>, name: Option<Seq<char>>) -> Seq<Seq<char>> {
    match name {
        Some(n) => seq!["namespaces"@, ns, n],
        None => seq!["namespaces"@, ns],
    }
}

/// The scope of a resource that lives in namespaces.
#[derive(Debug, Clone, PartialEq, Eq)]
pub enum NamespaceScope {
    Cluster,
    Namespace(String),
    Name { namespace: String, name: String },
}

impl ResourceScope for NamespaceScope {
    open spec fn spec_namespace(&self) -> Option<Seq<char>> {
        match self {
            NamespaceScope::Cluster => None,
            NamespaceScope::Namespace(ns) => Some(ns@),
            NamespaceScope::Name { namespace, name } => Some(namespace@),
        }
    }

    open spec fn spec_name(&self) -> Option<Seq<char>> {
        match self {
            NamespaceScope::Name { namespace, name } => Some(name@),
            _ => None,
        }
    }

    open spec fn spec_url_segments(&self) -> Seq<Seq<char>> {
        match self {
            NamespaceScope::Cluster => seq![],
            NamespaceScope::Namespace(ns) => namespaced_segments(ns@, None),
            NamespaceScope::Name { namespace, name } => namespaced_segments(namespace@, Some(name@)),
        }
    }

    fn url_segments(&self) -> (r: Vec<String>) {
        let r = match self {
            NamespaceScope::Cluster => Vec::new(),
            NamespaceScope::Namespace(ns) => vec!["namespaces".to_owned(), copy_string(ns)],
            NamespaceScope::Name { namespace, name } => vec![
                "namespaces".to_owned(),
                copy_string(namespace),
                copy_string(name),
            ],
        };
        proof {
            assert(strings_view(r@) =~= self.spec_url_segments());
        }
        r
    }

    fn name(&self) -> (r: Option<String>) {
        match self {
            NamespaceScope::Name { namespace, name } => Some(copy_string(name)),
            _ => None,
        }
    }

    fn namespace(&self) -> (r: Option<String>) {
        match self {
            NamespaceScope::Cluster => None,
            NamespaceScope::Namespace(ns) => Some(copy_string(ns)),
            NamespaceScope::Name { namespace, name } => Some(copy_string(namespace)),
        }
    }
}

/// The scope of a resource without namespaces.
#[derive(Debug, Clone, PartialEq, Eq)]
pub enum ClusterScope {
    Cluster,
    Name(String),
}

impl ResourceScope for ClusterScope {
    open spec fn spec_namespace(&self) -> Option<Seq<char>> {
        None
    }

    open spec fn spec_name(&self) -> Option<Seq<char>> {
        match self {
            ClusterScope::Cluster => None,
            ClusterScope::Name(n) => Some(n@),
        }
    }

    open spec fn spec_url_segments(&self) -> Seq<Seq<char>> {
        match self {
            ClusterScope::Cluster => seq![],
            ClusterScope::Name(n) => seq![n@],
        }
    }

    fn url_segments(&self) -> (r: Vec<String>) {
        let r = match self {
            ClusterScope::Cluster => Vec::new(),
            ClusterScope::Name(n) => vec![copy_string(n)],
        };
        proof {
            assert(strings_view(r@) =~= self.spec_url_segments());
        }
        r
    }

    fn name(&self) -> (r: Option<String>) {
        match self {
            ClusterScope::Cluster => None,
            ClusterScope::Name(n) => Some(copy_string(n)),
        }
    }

    fn namespace(&self) -> (r: Option<String>) {
        None
    }
}

/// The scope of a resource whose shape is only known at run time.
#[derive(Debug, Clone, PartialEq, Eq)]
pub enum DynamicScope {
    Cluster(ClusterScope),
    Namespace(NamespaceScope),
}

impl ResourceScope for DynamicScope {
    open spec fn spec_namespace(&self) -> Option<Seq<char>> {
        match self {
            DynamicScope::Cluster(s) => s.spec_namespace(),
            DynamicScope::Namespace(s) => s.spec_namespace(),
        }
    }

    open spec fn spec_name(&self) -> Option<Seq<char>> {
        match self {
            DynamicScope::Cluster(s) => s.spec_name(),
            DynamicScope::Namespace(s) => s.spec_name(),
        }
    }

    open spec fn spec_url_segments(&self) -> Seq<Seq<char>> {
        match self {
            DynamicScope::Cluster(s) => s.spec_url_segments(),
            DynamicScope::Namespace(s) => s.spec_url_segments(),
        }
    }

    fn url_segments(&self) -> (r: Vec<String>) {
        match self {
            DynamicScope::Cluster(s) => s.url_segments(),
            DynamicScope::Namespace(s) => s.url_segments(),
        }
    }

    fn name(&self) -> (r: Option<String>) {
        match self {
            DynamicScope::Cluster(s) => s.name(),
            DynamicScope::Namespace(s) => s.name(),
        }
    }

    fn namespace(&self) -> (r: Option<String>) {
        match self {
            DynamicScope::Cluster(s) => s.namespace(),
            DynamicScope::Namespace(s) => s.namespace(),
        }
    }
}

} // verus!
