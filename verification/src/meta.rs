//! The metadata that every cluster object carries.

use vstd::prelude::*;

verus! {

/// A point in time: whole seconds since the Unix epoch and the nanoseconds
/// within that second.
#[derive(Clone, Copy, Debug, PartialEq, Eq, Structural)]
pub struct Timestamp {
    pub seconds: i64,
    pub nanoseconds: i32,
}

/// The part of an object's metadata that the operator reads.
#[derive(Clone, Debug, PartialEq, Eq)]
pub struct ObjectMeta {
    pub name: Option<String>,
    pub generate_name: Option<String>,
    pub namespace: Option<String>,
    /// Opaque to the operator; the cluster uses it for optimistic concurrency.
    pub resource_version: Option<String>,
    pub finalizers: Option<Vec<String>>,
    /// Set by the cluster once removal of the object was requested.
    pub deletion_timestamp: Option<Timestamp>,
}

/// The mathematical value of an [`ObjectMeta`].
pub struct ObjectMetaView {
    pub name: Option<Seq<char>>,
    pub generate_name: Option<Seq<char>>,
    pub namespace: Option<Seq<char>>,
    pub resource_version: Option<Seq<char>>,
    pub finalizers: Option<Seq<Seq<char>>>,
    pub deletion_timestamp: Option<Timestamp>,
}

impl View for ObjectMeta {
    type V = ObjectMetaView;

    open spec fn view(&self) -> ObjectMetaView {
        ObjectMetaView {
            name: self.name.deep_view(),
            generate_name: self.generate_name.deep_view(),
            namespace: self.namespace.deep_view(),
            resource_version: self.resource_version.deep_view(),
            finalizers: self.finalizers.deep_view(),
            deletion_timestamp: self.deletion_timestamp,
        }
    }
}

/// One label of an object: a key and the value set for it.
#[derive(Clone, Debug, PartialEq, Eq)]
pub struct Label {
    pub key: String,
    pub value: String,
}

/// The mathematical value of a [`Label`].
pub struct LabelView {
    pub key: Seq<char>,
    pub value: Seq<char>,
}

impl View for Label {
    type V = LabelView;

    open spec fn view(&self) -> LabelView {
        LabelView { key: self.key@, value: self.value@ }
    }
}

impl DeepView for Label {
    type V = LabelView;

    open spec fn deep_view(&self) -> LabelView {
        self@
    }
}

impl Label {
    pub fn new(key: &str, value: &str) -> (label: Label)
        ensures
            label@ == (LabelView { key: key@, value: value@ }),
    {
        Label { key: key.to_owned(), value: value.to_owned() }
    }
}

/// No key is set twice, so the labels stand for a map from key to value.
pub open spec fn distinct_keys(labels: Seq<LabelView>) -> bool {
    forall|i: int, j: int|
        0 <= i < j < labels.len() ==> (#[trigger] labels[i]).key != (#[trigger] labels[j]).key
}

impl ObjectMetaView {
    /// The name, else the name prefix the cluster generates names from, else
    /// the empty string.
    pub open spec fn name_any(self) -> Seq<char> {
        match self.name {
            Some(name) => name,
            None => match self.generate_name {
                Some(prefix) => prefix,
                None => Seq::empty(),
            },
        }
    }

    /// The finalizer tokens in order; none where the list is absent.
    pub open spec fn finalizer_list(self) -> Seq<Seq<char>> {
        match self.finalizers {
            Some(tokens) => tokens,
            None => Seq::empty(),
        }
    }
}

impl ObjectMeta {
    /// The most useful name available: the name, else the generated-name
    /// prefix, else the empty string.
    pub fn name_any(&self) -> (name: String)
        ensures
            name@ == self@.name_any(),
    {
        match &self.name {
            Some(name) => name.clone(),
            None => match &self.generate_name {
                Some(prefix) => prefix.clone(),
                None => String::new(),
            },
        }
    }

    /// The namespace the object lives in, if it is namespaced.
    pub fn namespace(&self) -> (namespace: Option<String>)
        ensures
            namespace.deep_view() == self@.namespace,
    {
        match &self.namespace {
            Some(namespace) => Some(namespace.clone()),
            None => None,
        }
    }
}

} // verus!
