//! Categorised, hierarchical annotations that travel alongside stored content.
use std::sync::Arc;
use vstd::prelude::*;

verus! {

/// The kind of relation a `Relation` node expresses.
#[derive(Clone, Copy, Debug, PartialEq, Eq, Structural)]
pub enum MetadataRelationship {
    Is,
    Has,
}

/// What a metadata node names: an originating actor, a plain attribute or a
/// typed relationship.
#[derive(Clone, Copy, Debug, PartialEq, Eq, Structural)]
pub enum MetadataCategory {
    Originator,
    Attribute,
    Relation(MetadataRelationship),
}

/// One node of an annotation tree. A node may only point at a parent that
/// already exists, so the tree has no cycles; a parent is shared by all of its
/// children.
#[derive(Clone, Debug, PartialEq, Eq)]
pub struct MetadataItem {
    parent: Option<Arc<MetadataItem>>,
    value: String,
    category: MetadataCategory,
}

impl MetadataItem {
    pub closed spec fn spec_parent(&self) -> Option<Arc<MetadataItem>> {
        self.parent
    }

    pub closed spec fn spec_value(&self) -> Seq<char> {
        self.value@
    }

    pub closed spec fn spec_category(&self) -> MetadataCategory {
        self.category
    }

    /// Builds a node from its value, its category and an optional parent.
    pub fn new(value: String, category: MetadataCategory, parent: Option<Arc<MetadataItem>>) -> (r:
        MetadataItem)
        ensures
            r.spec_value() == value@,
            r.spec_category() == category,
            r.spec_parent() == parent,
    {
        MetadataItem { parent, value, category }
    }

    /// Builds a node whose parent is `parent`, shared with any other children.
    pub fn with_parent(value: String, category: MetadataCategory, parent: MetadataItem) -> (r:
        MetadataItem)
        ensures
            r.spec_value() == value@,
            r.spec_category() == category,
            r.spec_parent() matches Some(p) && *p == parent,
    {
        MetadataItem { parent: Some(Arc::new(parent)), value, category }
    }

    pub fn value(&self) -> (r: &str)
        ensures
            r@ == self.spec_value(),
    {
        self.value.as_str()
    }

    pub fn category(&self) -> (r: MetadataCategory)
        ensures
            r == self.spec_category(),
    {
        self.category
    }

    pub fn parent(&self) -> (r: Option<&MetadataItem>)
        ensures
            match self.spec_parent() {
                Some(p) => r matches Some(q) && *q == *p,
                None => r is None,
            },
    {
        match &self.parent {
            Some(p) => Some(&**p),
            None => None,
        }
    }
}

} // verus!
