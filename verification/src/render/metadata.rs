//! The metadata that every rendered object shares.

use vstd::prelude::*;

use crate::k8s::meta::{ObjectMeta, ObjectMetaView, OwnerReference, OwnerReferenceView};
use crate::modes::{EffectiveConfig, EffectiveConfigView, NAMESPACE};
use crate::string_map::StringMap;

verus! {

/// Field manager for server-side apply. Also how the operator recognises the
/// objects it owns.
pub const FIELD_MANAGER: &'static str = "network-operator";

/// The labels on every rendered object.
pub open spec fn common_labels_view(cfg: EffectiveConfigView) -> Map<Seq<char>, Seq<char>> {
    Map::empty().insert("app.kubernetes.io/managed-by"@, FIELD_MANAGER@).insert(
        "app.kubernetes.io/part-of"@,
        "cilium"@,
    ).insert("network.storm.io/owner"@, cfg.network_name)
}

/// Labels stamped on every rendered object. `managed-by` is what makes drift
/// attributable and lets an operator find its own objects.
pub fn common_labels(cfg: &EffectiveConfig) -> (r: StringMap)
    ensures
        r.deep_view() == common_labels_view(cfg.deep_view()),
{
    let mut labels = StringMap::new();
    labels.insert("app.kubernetes.io/managed-by", FIELD_MANAGER);
    labels.insert("app.kubernetes.io/part-of", "cilium");
    labels.insert("network.storm.io/owner", cfg.network_name.as_str());
    labels
}

/// A map of one label.
pub fn label(key: &str, value: &str) -> (r: StringMap)
    ensures
        r.deep_view() == Map::<Seq<char>, Seq<char>>::empty().insert(key@, value@),
{
    let mut labels = StringMap::new();
    labels.insert(key, value);
    labels
}

/// Labels and one more.
pub fn with_label(labels: StringMap, key: &str, value: &str) -> (r: StringMap)
    ensures
        r.deep_view() == labels.deep_view().insert(key@, value@),
{
    let mut labels = labels;
    labels.insert(key, value);
    labels
}

/// The owner of everything that is rendered; none off-cluster, where there is
/// no uid to point at.
pub open spec fn owner_ref_view(cfg: EffectiveConfigView) -> Option<OwnerReferenceView> {
    match cfg.network_uid {
        Some(uid) => Some(
            OwnerReferenceView {
                api_version: "network.storm.io/v1"@,
                block_owner_deletion: Some(true),
                controller: Some(true),
                kind: "Network"@,
                name: cfg.network_name,
                uid,
            },
        ),
        None => None,
    }
}

/// Owner reference back to the `Network`, so deleting the CR garbage-collects
/// the install. Cluster-scoped owners may own namespaced dependents.
pub fn owner_ref(cfg: &EffectiveConfig) -> (r: Option<OwnerReference>)
    ensures
        r.deep_view() == owner_ref_view(cfg.deep_view()),
{
    match &cfg.network_uid {
        Some(uid) => Some(
            OwnerReference {
                api_version: "network.storm.io/v1".to_string(),
                block_owner_deletion: Some(true),
                controller: Some(true),
                kind: "Network".to_string(),
                name: cfg.network_name.clone(),
                uid: uid.clone(),
            },
        ),
        None => None,
    }
}

/// Labels over others, the last of a key winning.
pub open spec fn overlaid(
    labels: Map<Seq<char>, Seq<char>>,
    extra: Seq<(Seq<char>, Seq<char>)>,
) -> Map<Seq<char>, Seq<char>>
    decreases extra.len(),
{
    if extra.len() == 0 {
        labels
    } else {
        overlaid(labels, extra.drop_last()).insert(extra.last().0, extra.last().1)
    }
}

/// The metadata of a namespaced object.
pub open spec fn meta_view(
    cfg: EffectiveConfigView,
    name: Seq<char>,
    extra: Seq<(Seq<char>, Seq<char>)>,
) -> ObjectMetaView {
    ObjectMetaView {
        name: Some(name),
        namespace: Some(NAMESPACE@),
        labels: Some(overlaid(common_labels_view(cfg), extra)),
        owner_references: match owner_ref_view(cfg) {
            Some(owner) => Some(seq![owner]),
            None => None,
        },
        ..ObjectMetaView::unset()
    }
}

/// The metadata of a cluster-scoped object.
pub open spec fn cluster_meta_view(
    cfg: EffectiveConfigView,
    name: Seq<char>,
    extra: Seq<(Seq<char>, Seq<char>)>,
) -> ObjectMetaView {
    ObjectMetaView { namespace: None, ..meta_view(cfg, name, extra) }
}

/// Namespaced object metadata with the common labels and owner reference.
pub fn meta(cfg: &EffectiveConfig, name: &str, extra: &[(&str, &str)]) -> (r: ObjectMeta)
    ensures
        r.deep_view() == meta_view(cfg.deep_view(), name@, extra.deep_view()),
{
    let mut labels = common_labels(cfg);
    let ghost common = labels.deep_view();
    let ghost all = extra.deep_view();
    assert(all.take(0) =~= Seq::empty());
    let mut i: usize = 0;
    while i < extra.len()
        invariant
            i <= extra.len(),
            all == extra.deep_view(),
            labels.deep_view() == overlaid(common, all.take(i as int)),
        decreases extra.len() - i,
    {
        labels.insert(extra[i].0, extra[i].1);
        assert(all.take(i + 1).drop_last() =~= all.take(i as int));
        assert(all.take(i + 1).last() == (extra[i as int].0@, extra[i as int].1@));
        i = i + 1;
    }
    assert(all.take(extra.len() as int) =~= all);
    let owner_references = match owner_ref(cfg) {
        Some(owner) => Some(vec![owner]),
        None => None,
    };
    let r = ObjectMeta {
        name: Some(name.to_string()),
        namespace: Some(NAMESPACE.to_string()),
        labels: Some(labels),
        owner_references,
        ..ObjectMeta::default()
    };
    assert(r.deep_view() =~~= meta_view(cfg.deep_view(), name@, extra.deep_view()));
    r
}

/// Cluster-scoped object metadata (RBAC, Cilium CRs).
pub fn cluster_meta(cfg: &EffectiveConfig, name: &str, extra: &[(&str, &str)]) -> (r: ObjectMeta)
    ensures
        r.deep_view() == cluster_meta_view(cfg.deep_view(), name@, extra.deep_view()),
{
    let mut m = meta(cfg, name, extra);
    m.namespace = None;
    m
}

} // verus!
