//! Metadata that every object carries, and the conditions in a status.

use vstd::prelude::*;

use crate::string_map::StringMap;

verus! {

/// A moment: seconds and nanoseconds since the Unix epoch, in UTC.
#[derive(Clone, Copy, Debug, PartialEq, Eq, Structural)]
pub struct Time {
    pub secs: i64,
    pub nanos: u32,
}

impl DeepView for Time {
    type V = Time;

    open spec fn deep_view(&self) -> Time {
        *self
    }
}

/// The apiVersion and kind an object is sent under.
#[derive(Clone, Debug, PartialEq)]
pub struct TypeMeta {
    pub api_version: String,
    pub kind: String,
}

/// What a [`TypeMeta`] holds.
#[verifier::ext_equal]
pub struct TypeMetaView {
    pub api_version: Seq<char>,
    pub kind: Seq<char>,
}

impl DeepView for TypeMeta {
    type V = TypeMetaView;

    open spec fn deep_view(&self) -> TypeMetaView {
        TypeMetaView {
            api_version: self.api_version.deep_view(),
            kind: self.kind.deep_view(),
        }
    }
}

/// Where the apiserver serves a kind of object.
#[derive(Clone, Debug, PartialEq)]
pub struct ApiResource {
    /// The API group; empty for the core group.
    pub group: String,
    pub version: String,
    /// `group/version`, or just the version in the core group.
    pub api_version: String,
    pub kind: String,
    pub plural: String,
}

/// What a [`ApiResource`] holds.
#[verifier::ext_equal]
pub struct ApiResourceView {
    pub group: Seq<char>,
    pub version: Seq<char>,
    pub api_version: Seq<char>,
    pub kind: Seq<char>,
    pub plural: Seq<char>,
}

impl DeepView for ApiResource {
    type V = ApiResourceView;

    open spec fn deep_view(&self) -> ApiResourceView {
        ApiResourceView {
            group: self.group.deep_view(),
            version: self.version.deep_view(),
            api_version: self.api_version.deep_view(),
            kind: self.kind.deep_view(),
            plural: self.plural.deep_view(),
        }
    }
}

/// A reference to the object that owns this one.
#[derive(Clone, Debug, PartialEq)]
pub struct OwnerReference {
    pub api_version: String,
    pub block_owner_deletion: Option<bool>,
    pub controller: Option<bool>,
    pub kind: String,
    pub name: String,
    pub uid: String,
}

/// What a [`OwnerReference`] holds.
#[verifier::ext_equal]
pub struct OwnerReferenceView {
    pub api_version: Seq<char>,
    pub block_owner_deletion: Option<bool>,
    pub controller: Option<bool>,
    pub kind: Seq<char>,
    pub name: Seq<char>,
    pub uid: Seq<char>,
}

impl DeepView for OwnerReference {
    type V = OwnerReferenceView;

    open spec fn deep_view(&self) -> OwnerReferenceView {
        OwnerReferenceView {
            api_version: self.api_version.deep_view(),
            block_owner_deletion: self.block_owner_deletion.deep_view(),
            controller: self.controller.deep_view(),
            kind: self.kind.deep_view(),
            name: self.name.deep_view(),
            uid: self.uid.deep_view(),
        }
    }
}

/// The metadata of an object.
#[derive(Clone, Debug, PartialEq)]
pub struct ObjectMeta {
    pub name: Option<String>,
    pub namespace: Option<String>,
    pub uid: Option<String>,
    pub generation: Option<i64>,
    pub resource_version: Option<String>,
    pub labels: Option<StringMap>,
    pub owner_references: Option<Vec<OwnerReference>>,
}

/// What a [`ObjectMeta`] holds.
#[verifier::ext_equal]
pub struct ObjectMetaView {
    pub name: Option<Seq<char>>,
    pub namespace: Option<Seq<char>>,
    pub uid: Option<Seq<char>>,
    pub generation: Option<i64>,
    pub resource_version: Option<Seq<char>>,
    pub labels: Option<Map<Seq<char>, Seq<char>>>,
    pub owner_references: Option<Seq<OwnerReferenceView>>,
}

impl DeepView for ObjectMeta {
    type V = ObjectMetaView;

    open spec fn deep_view(&self) -> ObjectMetaView {
        ObjectMetaView {
            name: self.name.deep_view(),
            namespace: self.namespace.deep_view(),
            uid: self.uid.deep_view(),
            generation: self.generation.deep_view(),
            resource_version: self.resource_version.deep_view(),
            labels: self.labels.deep_view(),
            owner_references: self.owner_references.deep_view(),
        }
    }
}

impl ObjectMetaView {
    /// Nothing set.
    pub open spec fn unset() -> ObjectMetaView {
        ObjectMetaView {
            name: None,
            namespace: None,
            uid: None,
            generation: None,
            resource_version: None,
            labels: None,
            owner_references: None,
        }
    }
}

impl Default for ObjectMeta {
    fn default() -> (r: ObjectMeta)
        ensures
            r.deep_view() == ObjectMetaView::unset(),
    {
        ObjectMeta {
            name: None,
            namespace: None,
            uid: None,
            generation: None,
            resource_version: None,
            labels: None,
            owner_references: None,
        }
    }
}

/// Selects objects by their labels.
#[derive(Clone, Debug, PartialEq)]
pub struct LabelSelector {
    pub match_labels: Option<StringMap>,
}

/// What a [`LabelSelector`] holds.
#[verifier::ext_equal]
pub struct LabelSelectorView {
    pub match_labels: Option<Map<Seq<char>, Seq<char>>>,
}

impl DeepView for LabelSelector {
    type V = LabelSelectorView;

    open spec fn deep_view(&self) -> LabelSelectorView {
        LabelSelectorView {
            match_labels: self.match_labels.deep_view(),
        }
    }
}

/// One condition of a status.
#[derive(Debug, PartialEq)]
pub struct Condition {
    pub type_: String,
    /// `True` or `False`.
    pub status: String,
    pub reason: String,
    pub message: String,
    pub observed_generation: Option<i64>,
    /// When `status` last changed.
    pub last_transition_time: Time,
}

impl Clone for Condition {
    fn clone(&self) -> (r: Condition)
        ensures
            r.deep_view() == self.deep_view(),
    {
        Condition {
            type_: self.type_.clone(),
            status: self.status.clone(),
            reason: self.reason.clone(),
            message: self.message.clone(),
            observed_generation: self.observed_generation,
            last_transition_time: self.last_transition_time,
        }
    }
}

/// What a [`Condition`] holds.
#[verifier::ext_equal]
pub struct ConditionView {
    pub type_: Seq<char>,
    pub status: Seq<char>,
    pub reason: Seq<char>,
    pub message: Seq<char>,
    pub observed_generation: Option<i64>,
    pub last_transition_time: Time,
}

impl DeepView for Condition {
    type V = ConditionView;

    open spec fn deep_view(&self) -> ConditionView {
        ConditionView {
            type_: self.type_.deep_view(),
            status: self.status.deep_view(),
            reason: self.reason.deep_view(),
            message: self.message.deep_view(),
            observed_generation: self.observed_generation.deep_view(),
            last_transition_time: self.last_transition_time.deep_view(),
        }
    }
}

} // verus!
