//! Type information that a schema fixes: its `apiVersion` and `kind`, and
//! the list shape shared by every collection.

use vstd::prelude::*;
use std::marker::PhantomData;
use crate::json::Json;
use crate::status::{ListMeta, check_type_meta, type_meta_ok};

verus! {

/// The `apiVersion` and `kind` that a schema is sent with.
pub trait TypeMeta {
    spec fn spec_api_version() -> Seq<char>;

    spec fn spec_kind() -> Seq<char>;

    fn api_version() -> (r: &'static str)
        ensures
            r@ == Self::spec_api_version();

    fn kind() -> (r: &'static str)
        ensures
            r@ == Self::spec_kind();
}

/// Stands in a schema for its type information: checked on reading,
/// written from `T`.
#[derive(Debug)]
pub struct TypeMetaImpl<T>(pub PhantomData<T>);

impl<T: TypeMeta> TypeMetaImpl<T> {
    pub fn new() -> (r: TypeMetaImpl<T>) {
        TypeMetaImpl(PhantomData)
    }

    /// A document may carry no type information, or exactly `T`'s.
    pub fn check(&self, j: &Json) -> (r: bool)
        ensures
            r == type_meta_ok(*j, T::spec_api_version(), T::spec_kind()),
    {
        check_type_meta(j, T::api_version(), T::kind())
    }

    /// The members `apiVersion` and `kind` that `T` is written with.
    pub fn members(&self) -> (r: Vec<(String, String)>)
        ensures
            r@.len() == 2,
            r@[0].0@ == "apiVersion"@,
            r@[0].1@ == T::spec_api_version(),
            r@[1].0@ == "kind"@,
            r@[1].1@ == T::spec_kind(),
    {
        vec![("apiVersion".to_owned(), T::api_version().to_owned()), ("kind".to_owned(), T::kind().to_owned())]
    }
}

/// What every list has: its metadata and its items.
pub trait List {
    type Item;

    fn listmeta(&self) -> ListMeta;

    fn items(&self) -> &Vec<Self::Item>;

    fn into_items(self) -> Vec<Self::Item>;
}

/// A list of items of one schema.
#[derive(Debug, Clone, Default, PartialEq, Eq)]
pub struct ItemList<T> {
    pub metadata: ListMeta,
    pub items: Vec<T>,
}

impl<T> List for ItemList<T> {
    type Item = T;

    fn listmeta(&self) -> ListMeta {
        self.metadata.clone()
    }

    fn items(&self) -> &Vec<T> {
        &self.items
    }

    fn into_items(self) -> Vec<T> {
        self.items
    }
}

impl<T> ItemList<T> {
    pub fn len(&self) -> (r: usize)
        ensures
            r == self.items@.len(),
    {
        self.items.len()
    }
}

} // verus!
