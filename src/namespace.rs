//! Namespaces: the root scope of every other entity.
use crate::timestamps::Timestamps;
use vstd::prelude::*;

verus! {

/// A namespace has no update operation: renaming one would silently break
/// every entity that refers to it.
#[derive(Debug, Clone)]
pub struct Namespace {
    pub id: String,
    pub timestamps: Timestamps,
}

pub struct NamespaceView {
    pub id: Seq<char>,
    pub timestamps: Timestamps,
}

impl View for Namespace {
    type V = NamespaceView;

    open spec fn view(&self) -> NamespaceView {
        NamespaceView { id: self.id@, timestamps: self.timestamps }
    }
}

#[derive(Debug, Clone)]
pub struct NewNamespace {
    pub id: String,
}

impl Namespace {
    pub fn new(id: String) -> (r: Namespace)
        ensures
            r.id@ == id@,
            r.timestamps.updated_at is None,
    {
        Namespace { id, timestamps: Timestamps::new() }
    }

    pub fn new_from_obj(new_namespace: &NewNamespace) -> (r: Namespace)
        ensures
            r.id@ == new_namespace.id@,
            r.timestamps.updated_at is None,
    {
        Namespace { id: new_namespace.id.clone(), timestamps: Timestamps::new() }
    }

    pub fn copy(&self) -> (r: Namespace)
        ensures
            r@ == self@,
    {
        Namespace { id: self.id.clone(), timestamps: self.timestamps }
    }
}

} // verus!
