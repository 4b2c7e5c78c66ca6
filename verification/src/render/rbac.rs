//! ServiceAccounts and RBAC for the agent and the operator.
//!
//! The rules are the minimum Cilium needs to run in CRD-identity mode: the
//! agent reads cluster state and owns its own CRs; the operator additionally
//! installs the Cilium CRDs and garbage-collects identities and endpoints.

use vstd::prelude::*;

use crate::k8s::rbac::{
    ClusterRole, ClusterRoleBinding, ClusterRoleBindingView, ClusterRoleView, PolicyRule,
    PolicyRuleView, Role, RoleBinding, RoleBindingView, RoleRef, RoleRefView, RoleView, Subject,
    SubjectView,
};
use crate::k8s::resource::{ServiceAccount, ServiceAccountView};
use crate::modes::{EffectiveConfig, EffectiveConfigView, NAMESPACE};
use crate::render::metadata::{cluster_meta, meta};
use crate::render::names::{AGENT_SA, OPERATOR_SA};
use crate::render::object::{typed, Object, ObjectView, Rendered, RenderedView};

verus! {

use crate::render::metadata::{cluster_meta_view, meta_view};
use crate::render::object::typed_view;

/// The Role that lets the agent read ConfigMaps in its own namespace.
pub const CONFIG_READER: &'static str = "cilium-config-agent";

/// The API group of roles and bindings.
pub const RBAC_GROUP: &'static str = "rbac.authorization.k8s.io";

/// What may be done to which resources.
pub open spec fn rule_view(
    groups: Seq<Seq<char>>,
    resources: Seq<Seq<char>>,
    verbs: Seq<Seq<char>>,
) -> PolicyRuleView {
    PolicyRuleView { api_groups: Some(groups), resources: Some(resources), verbs }
}

/// What may be done to which resources.
pub fn rule(groups: Vec<String>, resources: Vec<String>, verbs: Vec<String>) -> (r: PolicyRule)
    ensures
        r.deep_view() == rule_view(groups.deep_view(), resources.deep_view(), verbs.deep_view()),
{
    let r = PolicyRule { api_groups: Some(groups), resources: Some(resources), verbs };
    assert(r.deep_view() =~~= rule_view(
        groups.deep_view(),
        resources.deep_view(),
        verbs.deep_view(),
    ));
    r
}

/// Read access to endpoint slices.
pub open spec fn read_endpoint_slices_view() -> PolicyRuleView {
    rule_view(
        seq!["discovery.k8s.io"@],
        seq!["endpointslices"@],
        seq!["get"@, "list"@, "watch"@],
    )
}

/// Read access to endpoint slices.
pub fn read_endpoint_slices() -> (r: PolicyRule)
    ensures
        r.deep_view() == read_endpoint_slices_view(),
{
    let r = rule(
        vec!["discovery.k8s.io".to_string()],
        vec!["endpointslices".to_string()],
        vec!["get".to_string(), "list".to_string(), "watch".to_string()],
    );
    assert(r.deep_view() =~~= read_endpoint_slices_view());
    r
}

/// Leases, which back leader elections (the L2 announcement leader, among
/// others).
pub open spec fn hold_leases_view() -> PolicyRuleView {
    rule_view(
        seq!["coordination.k8s.io"@],
        seq!["leases"@],
        seq![
            "create"@,
            "get"@,
            "update"@,
            "list"@,
            "delete"@,
        ],
    )
}

/// Leases, which back leader elections (the L2 announcement leader, among
/// others).
pub fn hold_leases() -> (r: PolicyRule)
    ensures
        r.deep_view() == hold_leases_view(),
{
    let r = rule(
        vec!["coordination.k8s.io".to_string()],
        vec!["leases".to_string()],
        vec![
            "create".to_string(),
            "get".to_string(),
            "update".to_string(),
            "list".to_string(),
            "delete".to_string(),
        ],
    );
    assert(r.deep_view() =~~= hold_leases_view());
    r
}

/// The agent: read the cluster state.
pub open spec fn agent_reads_cluster_view() -> PolicyRuleView {
    rule_view(
        seq![""@],
        seq![
            "namespaces"@,
            "services"@,
            "pods"@,
            "endpoints"@,
            "nodes"@,
        ],
        seq!["get"@, "list"@, "watch"@],
    )
}

/// The agent: read the cluster state.
pub fn agent_reads_cluster() -> (r: PolicyRule)
    ensures
        r.deep_view() == agent_reads_cluster_view(),
{
    let r = rule(
        vec!["".to_string()],
        vec![
            "namespaces".to_string(),
            "services".to_string(),
            "pods".to_string(),
            "endpoints".to_string(),
            "nodes".to_string(),
        ],
        vec!["get".to_string(), "list".to_string(), "watch".to_string()],
    );
    assert(r.deep_view() =~~= agent_reads_cluster_view());
    r
}

/// The agent: restart pods that it cannot plumb.
pub open spec fn agent_manages_pods_view() -> PolicyRuleView {
    rule_view(
        seq![""@],
        seq!["pods"@, "pods/finalizers"@],
        seq![
            "get"@,
            "list"@,
            "watch"@,
            "update"@,
            "delete"@,
        ],
    )
}

/// The agent: restart pods that it cannot plumb.
pub fn agent_manages_pods() -> (r: PolicyRule)
    ensures
        r.deep_view() == agent_manages_pods_view(),
{
    let r = rule(
        vec!["".to_string()],
        vec!["pods".to_string(), "pods/finalizers".to_string()],
        vec![
            "get".to_string(),
            "list".to_string(),
            "watch".to_string(),
            "update".to_string(),
            "delete".to_string(),
        ],
    );
    assert(r.deep_view() =~~= agent_manages_pods_view());
    r
}

/// The agent: annotate its node.
pub open spec fn agent_patches_nodes_view() -> PolicyRuleView {
    rule_view(
        seq![""@],
        seq!["nodes"@, "nodes/status"@],
        seq!["patch"@],
    )
}

/// The agent: annotate its node.
pub fn agent_patches_nodes() -> (r: PolicyRule)
    ensures
        r.deep_view() == agent_patches_nodes_view(),
{
    let r = rule(
        vec!["".to_string()],
        vec!["nodes".to_string(), "nodes/status".to_string()],
        vec!["patch".to_string()],
    );
    assert(r.deep_view() =~~= agent_patches_nodes_view());
    r
}

/// The agent: read secrets.
pub open spec fn agent_reads_secrets_view() -> PolicyRuleView {
    rule_view(
        seq![""@],
        seq!["secrets"@],
        seq!["get"@, "list"@, "watch"@],
    )
}

/// The agent: read secrets.
pub fn agent_reads_secrets() -> (r: PolicyRule)
    ensures
        r.deep_view() == agent_reads_secrets_view(),
{
    let r = rule(
        vec!["".to_string()],
        vec!["secrets".to_string()],
        vec!["get".to_string(), "list".to_string(), "watch".to_string()],
    );
    assert(r.deep_view() =~~= agent_reads_secrets_view());
    r
}

/// The agent: read network policies.
pub open spec fn agent_reads_policies_view() -> PolicyRuleView {
    rule_view(
        seq!["networking.k8s.io"@],
        seq!["networkpolicies"@],
        seq!["get"@, "list"@, "watch"@],
    )
}

/// The agent: read network policies.
pub fn agent_reads_policies() -> (r: PolicyRule)
    ensures
        r.deep_view() == agent_reads_policies_view(),
{
    let r = rule(
        vec!["networking.k8s.io".to_string()],
        vec!["networkpolicies".to_string()],
        vec!["get".to_string(), "list".to_string(), "watch".to_string()],
    );
    assert(r.deep_view() =~~= agent_reads_policies_view());
    r
}

/// The agent: wait for CRDs.
pub open spec fn agent_reads_crds_view() -> PolicyRuleView {
    rule_view(
        seq!["apiextensions.k8s.io"@],
        seq!["customresourcedefinitions"@],
        seq!["list"@, "watch"@, "get"@],
    )
}

/// The agent: wait for CRDs.
pub fn agent_reads_crds() -> (r: PolicyRule)
    ensures
        r.deep_view() == agent_reads_crds_view(),
{
    let r = rule(
        vec!["apiextensions.k8s.io".to_string()],
        vec!["customresourcedefinitions".to_string()],
        vec!["list".to_string(), "watch".to_string(), "get".to_string()],
    );
    assert(r.deep_view() =~~= agent_reads_crds_view());
    r
}

/// The agent: own its CRs.
pub open spec fn agent_owns_crs_view() -> PolicyRuleView {
    rule_view(
        seq!["cilium.io"@],
        seq![
            "ciliumnetworkpolicies"@,
            "ciliumclusterwidenetworkpolicies"@,
            "ciliumendpoints"@,
            "ciliumendpointslices"@,
            "ciliumnodes"@,
            "ciliumidentities"@,
            "ciliumloadbalancerippools"@,
            "ciliuml2announcementpolicies"@,
            "ciliumbgpclusterconfigs"@,
            "ciliumbgppeerconfigs"@,
            "ciliumbgpadvertisements"@,
            "ciliumbgpnodeconfigs"@,
            "ciliumcidrgroups"@,
            "ciliumclusterwideenvoyconfigs"@,
            "ciliumenvoyconfigs"@,
            "ciliumpodippools"@,
        ],
        seq![
            "get"@,
            "list"@,
            "watch"@,
            "create"@,
            "update"@,
            "patch"@,
            "delete"@,
        ],
    )
}

/// The agent: own its CRs.
pub fn agent_owns_crs() -> (r: PolicyRule)
    ensures
        r.deep_view() == agent_owns_crs_view(),
{
    let r = rule(
        vec!["cilium.io".to_string()],
        vec![
            "ciliumnetworkpolicies".to_string(),
            "ciliumclusterwidenetworkpolicies".to_string(),
            "ciliumendpoints".to_string(),
            "ciliumendpointslices".to_string(),
            "ciliumnodes".to_string(),
            "ciliumidentities".to_string(),
            "ciliumloadbalancerippools".to_string(),
            "ciliuml2announcementpolicies".to_string(),
            "ciliumbgpclusterconfigs".to_string(),
            "ciliumbgppeerconfigs".to_string(),
            "ciliumbgpadvertisements".to_string(),
            "ciliumbgpnodeconfigs".to_string(),
            "ciliumcidrgroups".to_string(),
            "ciliumclusterwideenvoyconfigs".to_string(),
            "ciliumenvoyconfigs".to_string(),
            "ciliumpodippools".to_string(),
        ],
        vec![
            "get".to_string(),
            "list".to_string(),
            "watch".to_string(),
            "create".to_string(),
            "update".to_string(),
            "patch".to_string(),
            "delete".to_string(),
        ],
    );
    assert(r.deep_view() =~~= agent_owns_crs_view());
    r
}

/// The agent: report on its CRs.
pub open spec fn agent_reports_on_crs_view() -> PolicyRuleView {
    rule_view(
        seq!["cilium.io"@],
        seq![
            "ciliumnetworkpolicies/status"@,
            "ciliumclusterwidenetworkpolicies/status"@,
            "ciliumendpoints/status"@,
            "ciliumnodes/status"@,
            "ciliumbgpnodeconfigs/status"@,
        ],
        seq!["patch"@, "update"@],
    )
}

/// The agent: report on its CRs.
pub fn agent_reports_on_crs() -> (r: PolicyRule)
    ensures
        r.deep_view() == agent_reports_on_crs_view(),
{
    let r = rule(
        vec!["cilium.io".to_string()],
        vec![
            "ciliumnetworkpolicies/status".to_string(),
            "ciliumclusterwidenetworkpolicies/status".to_string(),
            "ciliumendpoints/status".to_string(),
            "ciliumnodes/status".to_string(),
            "ciliumbgpnodeconfigs/status".to_string(),
        ],
        vec!["patch".to_string(), "update".to_string()],
    );
    assert(r.deep_view() =~~= agent_reports_on_crs_view());
    r
}

/// What the agent may do: read cluster state, own its CRs.
#[verifier::opaque]
pub open spec fn agent_rules_view() -> Seq<PolicyRuleView> {
    seq![
        agent_reads_cluster_view(),
        agent_manages_pods_view(),
        agent_patches_nodes_view(),
        agent_reads_secrets_view(),
        read_endpoint_slices_view(),
        agent_reads_policies_view(),
        agent_reads_crds_view(),
        agent_owns_crs_view(),
        agent_reports_on_crs_view(),
        hold_leases_view(),
    ]
}

/// What the agent may do: read cluster state, own its CRs.
pub fn agent_rules() -> (r: Vec<PolicyRule>)
    ensures
        r.deep_view() == agent_rules_view(),
{
    proof {
        reveal(agent_rules_view);
    }
    let r = vec![
        agent_reads_cluster(),
        agent_manages_pods(),
        agent_patches_nodes(),
        agent_reads_secrets(),
        read_endpoint_slices(),
        agent_reads_policies(),
        agent_reads_crds(),
        agent_owns_crs(),
        agent_reports_on_crs(),
        hold_leases(),
    ];
    assert(r.deep_view() =~= agent_rules_view());
    r
}

/// `cilium-operator`: read the cluster state.
pub open spec fn operator_reads_cluster_view() -> PolicyRuleView {
    rule_view(
        seq![""@],
        seq![
            "pods"@,
            "nodes"@,
            "namespaces"@,
            "services"@,
            "endpoints"@,
        ],
        seq!["get"@, "list"@, "watch"@],
    )
}

/// `cilium-operator`: read the cluster state.
pub fn operator_reads_cluster() -> (r: PolicyRule)
    ensures
        r.deep_view() == operator_reads_cluster_view(),
{
    let r = rule(
        vec!["".to_string()],
        vec![
            "pods".to_string(),
            "nodes".to_string(),
            "namespaces".to_string(),
            "services".to_string(),
            "endpoints".to_string(),
        ],
        vec!["get".to_string(), "list".to_string(), "watch".to_string()],
    );
    assert(r.deep_view() =~~= operator_reads_cluster_view());
    r
}

/// `cilium-operator`: delete pods that no agent manages.
pub open spec fn operator_deletes_pods_view() -> PolicyRuleView {
    rule_view(
        seq![""@],
        seq!["pods"@],
        seq!["delete"@],
    )
}

/// `cilium-operator`: delete pods that no agent manages.
pub fn operator_deletes_pods() -> (r: PolicyRule)
    ensures
        r.deep_view() == operator_deletes_pods_view(),
{
    let r = rule(
        vec!["".to_string()],
        vec!["pods".to_string()],
        vec!["delete".to_string()],
    );
    assert(r.deep_view() =~~= operator_deletes_pods_view());
    r
}

/// `cilium-operator`: taint and annotate nodes.
pub open spec fn operator_patches_nodes_view() -> PolicyRuleView {
    rule_view(
        seq![""@],
        seq!["nodes"@, "nodes/status"@],
        seq!["patch"@, "update"@],
    )
}

/// `cilium-operator`: taint and annotate nodes.
pub fn operator_patches_nodes() -> (r: PolicyRule)
    ensures
        r.deep_view() == operator_patches_nodes_view(),
{
    let r = rule(
        vec!["".to_string()],
        vec!["nodes".to_string(), "nodes/status".to_string()],
        vec!["patch".to_string(), "update".to_string()],
    );
    assert(r.deep_view() =~~= operator_patches_nodes_view());
    r
}

/// `cilium-operator`: keep secrets.
pub open spec fn operator_keeps_secrets_view() -> PolicyRuleView {
    rule_view(
        seq![""@],
        seq!["secrets"@],
        seq![
            "get"@,
            "list"@,
            "watch"@,
            "create"@,
            "update"@,
            "delete"@,
        ],
    )
}

/// `cilium-operator`: keep secrets.
pub fn operator_keeps_secrets() -> (r: PolicyRule)
    ensures
        r.deep_view() == operator_keeps_secrets_view(),
{
    let r = rule(
        vec!["".to_string()],
        vec!["secrets".to_string()],
        vec![
            "get".to_string(),
            "list".to_string(),
            "watch".to_string(),
            "create".to_string(),
            "update".to_string(),
            "delete".to_string(),
        ],
    );
    assert(r.deep_view() =~~= operator_keeps_secrets_view());
    r
}

/// `cilium-operator`: record events.
pub open spec fn operator_records_events_view() -> PolicyRuleView {
    rule_view(
        seq![""@],
        seq!["events"@],
        seq!["create"@, "patch"@, "update"@],
    )
}

/// `cilium-operator`: record events.
pub fn operator_records_events() -> (r: PolicyRule)
    ensures
        r.deep_view() == operator_records_events_view(),
{
    let r = rule(
        vec!["".to_string()],
        vec!["events".to_string()],
        vec!["create".to_string(), "patch".to_string(), "update".to_string()],
    );
    assert(r.deep_view() =~~= operator_records_events_view());
    r
}

/// `cilium-operator`: read policies and ingresses.
pub open spec fn operator_reads_policies_view() -> PolicyRuleView {
    rule_view(
        seq!["networking.k8s.io"@],
        seq![
            "networkpolicies"@,
            "ingresses"@,
            "ingressclasses"@,
        ],
        seq!["get"@, "list"@, "watch"@],
    )
}

/// `cilium-operator`: read policies and ingresses.
pub fn operator_reads_policies() -> (r: PolicyRule)
    ensures
        r.deep_view() == operator_reads_policies_view(),
{
    let r = rule(
        vec!["networking.k8s.io".to_string()],
        vec![
            "networkpolicies".to_string(),
            "ingresses".to_string(),
            "ingressclasses".to_string(),
        ],
        vec!["get".to_string(), "list".to_string(), "watch".to_string()],
    );
    assert(r.deep_view() =~~= operator_reads_policies_view());
    r
}

/// `cilium-operator`: install the Cilium CRDs, and then own them — which is why
/// the Cilium CRs we render can 404 until it has run once.
pub open spec fn operator_installs_crds_view() -> PolicyRuleView {
    rule_view(
        seq!["apiextensions.k8s.io"@],
        seq!["customresourcedefinitions"@],
        seq![
            "create"@,
            "get"@,
            "list"@,
            "watch"@,
            "update"@,
            "patch"@,
        ],
    )
}

/// `cilium-operator`: install the Cilium CRDs, and then own them — which is why
/// the Cilium CRs we render can 404 until it has run once.
pub fn operator_installs_crds() -> (r: PolicyRule)
    ensures
        r.deep_view() == operator_installs_crds_view(),
{
    let r = rule(
        vec!["apiextensions.k8s.io".to_string()],
        vec!["customresourcedefinitions".to_string()],
        vec![
            "create".to_string(),
            "get".to_string(),
            "list".to_string(),
            "watch".to_string(),
            "update".to_string(),
            "patch".to_string(),
        ],
    );
    assert(r.deep_view() =~~= operator_installs_crds_view());
    r
}

/// `cilium-operator`: everything of `cilium.io`.
pub open spec fn operator_owns_crs_view() -> PolicyRuleView {
    rule_view(
        seq!["cilium.io"@],
        seq!["*"@],
        seq!["*"@],
    )
}

/// `cilium-operator`: everything of `cilium.io`.
pub fn operator_owns_crs() -> (r: PolicyRule)
    ensures
        r.deep_view() == operator_owns_crs_view(),
{
    let r = rule(
        vec!["cilium.io".to_string()],
        vec!["*".to_string()],
        vec!["*".to_string()],
    );
    assert(r.deep_view() =~~= operator_owns_crs_view());
    r
}

/// What `cilium-operator` may do.
#[verifier::opaque]
pub open spec fn operator_rules_view() -> Seq<PolicyRuleView> {
    seq![
        operator_reads_cluster_view(),
        operator_deletes_pods_view(),
        operator_patches_nodes_view(),
        operator_keeps_secrets_view(),
        operator_records_events_view(),
        read_endpoint_slices_view(),
        operator_reads_policies_view(),
        operator_installs_crds_view(),
        operator_owns_crs_view(),
        hold_leases_view(),
    ]
}

/// What `cilium-operator` may do.
pub fn operator_rules() -> (r: Vec<PolicyRule>)
    ensures
        r.deep_view() == operator_rules_view(),
{
    proof {
        reveal(operator_rules_view);
    }
    let r = vec![
        operator_reads_cluster(),
        operator_deletes_pods(),
        operator_patches_nodes(),
        operator_keeps_secrets(),
        operator_records_events(),
        read_endpoint_slices(),
        operator_reads_policies(),
        operator_installs_crds(),
        operator_owns_crs(),
        hold_leases(),
    ];
    assert(r.deep_view() =~= operator_rules_view());
    r
}

/// What the agent may do to ConfigMaps in its own namespace.
pub open spec fn config_reader_rules_view() -> Seq<PolicyRuleView> {
    seq![
        rule_view(
            seq![""@],
            seq!["configmaps"@],
            seq!["get"@, "list"@, "watch"@],
        ),
    ]
}

/// What the agent may do to ConfigMaps in its own namespace.
pub fn config_reader_rules() -> (r: Vec<PolicyRule>)
    ensures
        r.deep_view() == config_reader_rules_view(),
{
    let r = vec![
        rule(
            vec!["".to_string()],
            vec!["configmaps".to_string()],
            vec!["get".to_string(), "list".to_string(), "watch".to_string()],
        ),
    ];
    assert(r.deep_view() =~~= config_reader_rules_view());
    r
}

/// An identity.
pub open spec fn service_account_view(cfg: EffectiveConfigView, name: Seq<char>) -> ServiceAccountView {
    ServiceAccountView { metadata: meta_view(cfg, name, seq![]) }
}

/// An identity.
pub fn service_account(cfg: &EffectiveConfig, name: &str) -> (r: ServiceAccount)
    ensures
        r.deep_view() == service_account_view(cfg.deep_view(), name@),
{
    let r = ServiceAccount { metadata: meta(cfg, name, &[]) };
    assert(r.deep_view() =~= service_account_view(cfg.deep_view(), name@));
    r
}

/// A role across the cluster.
pub open spec fn cluster_role_view(
    cfg: EffectiveConfigView,
    name: Seq<char>,
    rules: Seq<PolicyRuleView>,
) -> ClusterRoleView {
    ClusterRoleView { metadata: cluster_meta_view(cfg, name, seq![]), rules: Some(rules) }
}

/// A role across the cluster.
pub fn cluster_role(cfg: &EffectiveConfig, name: &str, rules: Vec<PolicyRule>) -> (r: ClusterRole)
    ensures
        r.deep_view() == cluster_role_view(cfg.deep_view(), name@, rules.deep_view()),
{
    let r = ClusterRole { metadata: cluster_meta(cfg, name, &[]), rules: Some(rules) };
    assert(r.deep_view() =~= cluster_role_view(cfg.deep_view(), name@, rules.deep_view()));
    r
}

/// An identity of the namespace, as the subject of a binding.
pub open spec fn subject_view(name: Seq<char>) -> SubjectView {
    SubjectView {
        kind: "ServiceAccount"@,
        name: name,
        namespace: Some(NAMESPACE@),
        api_group: None,
    }
}

/// An identity of the namespace, as the subject of a binding.
pub fn subject(name: &str) -> (r: Subject)
    ensures
        r.deep_view() == subject_view(name@),
{
    let r = Subject {
        kind: "ServiceAccount".to_string(),
        name: name.to_string(),
        namespace: Some(NAMESPACE.to_string()),
        api_group: None,
    };
    assert(r.deep_view() =~~= subject_view(name@));
    r
}

/// Binds an identity to the role of its name.
pub open spec fn binding_view(cfg: EffectiveConfigView, name: Seq<char>) -> ClusterRoleBindingView {
    ClusterRoleBindingView {
        metadata: cluster_meta_view(cfg, name, seq![]),
        role_ref: RoleRefView {
            api_group: RBAC_GROUP@,
            kind: "ClusterRole"@,
            name: name,
        },
        subjects: Some(seq![subject_view(name)]),
    }
}

/// Binds an identity to the role of its name.
pub fn binding(cfg: &EffectiveConfig, name: &str) -> (r: ClusterRoleBinding)
    ensures
        r.deep_view() == binding_view(cfg.deep_view(), name@),
{
    let r = ClusterRoleBinding {
        metadata: cluster_meta(cfg, name, &[]),
        role_ref: RoleRef {
            api_group: RBAC_GROUP.to_string(),
            kind: "ClusterRole".to_string(),
            name: name.to_string(),
        },
        subjects: Some(vec![subject(name)]),
    };
    assert(r.deep_view() =~~= binding_view(cfg.deep_view(), name@));
    r
}

/// Reading ConfigMaps, in the namespace alone.
pub open spec fn config_reader_view(cfg: EffectiveConfigView) -> RoleView {
    RoleView {
        metadata: meta_view(cfg, CONFIG_READER@, seq![]),
        rules: Some(config_reader_rules_view()),
    }
}

/// Reading ConfigMaps, in the namespace alone.
pub fn config_reader(cfg: &EffectiveConfig) -> (r: Role)
    ensures
        r.deep_view() == config_reader_view(cfg.deep_view()),
{
    let r = Role {
        metadata: meta(cfg, CONFIG_READER, &[]),
        rules: Some(config_reader_rules()),
    };
    assert(r.deep_view() =~= config_reader_view(cfg.deep_view()));
    r
}

/// Binds the agent to it.
pub open spec fn config_reader_binding_view(cfg: EffectiveConfigView) -> RoleBindingView {
    RoleBindingView {
        metadata: meta_view(cfg, CONFIG_READER@, seq![]),
        role_ref: RoleRefView {
            api_group: RBAC_GROUP@,
            kind: "Role"@,
            name: CONFIG_READER@,
        },
        subjects: Some(seq![subject_view(AGENT_SA@)]),
    }
}

/// Binds the agent to it.
pub fn config_reader_binding(cfg: &EffectiveConfig) -> (r: RoleBinding)
    ensures
        r.deep_view() == config_reader_binding_view(cfg.deep_view()),
{
    let r = RoleBinding {
        metadata: meta(cfg, CONFIG_READER, &[]),
        role_ref: RoleRef {
            api_group: RBAC_GROUP.to_string(),
            kind: "Role".to_string(),
            name: CONFIG_READER.to_string(),
        },
        subjects: Some(vec![subject(AGENT_SA)]),
    };
    assert(r.deep_view() =~~= config_reader_binding_view(cfg.deep_view()));
    r
}

/// The identities, roles and bindings of the agent and of `cilium-operator`,
/// ready to apply.
pub open spec fn render_view(cfg: EffectiveConfigView) -> Seq<RenderedView> {
    seq![
        typed_view(ObjectView::ServiceAccount(service_account_view(cfg, AGENT_SA@))),
        typed_view(ObjectView::ServiceAccount(service_account_view(cfg, OPERATOR_SA@))),
        typed_view(ObjectView::ClusterRole(cluster_role_view(cfg, AGENT_SA@, agent_rules_view()))),
        typed_view(ObjectView::ClusterRole(cluster_role_view(cfg, OPERATOR_SA@, operator_rules_view()))),
        typed_view(ObjectView::ClusterRoleBinding(binding_view(cfg, AGENT_SA@))),
        typed_view(ObjectView::ClusterRoleBinding(binding_view(cfg, OPERATOR_SA@))),
    ]
}

/// The identities, roles and bindings of the agent and of `cilium-operator`,
/// ready to apply.
pub fn render(cfg: &EffectiveConfig) -> (r: Vec<Rendered>)
    ensures
        r.deep_view() == render_view(cfg.deep_view()),
{
    let r = vec![
        typed(Object::ServiceAccount(service_account(cfg, AGENT_SA))),
        typed(Object::ServiceAccount(service_account(cfg, OPERATOR_SA))),
        typed(Object::ClusterRole(cluster_role(cfg, AGENT_SA, agent_rules()))),
        typed(Object::ClusterRole(cluster_role(cfg, OPERATOR_SA, operator_rules()))),
        typed(Object::ClusterRoleBinding(binding(cfg, AGENT_SA))),
        typed(Object::ClusterRoleBinding(binding(cfg, OPERATOR_SA))),
    ];
    assert(r.deep_view() =~= render_view(cfg.deep_view()));
    r
}

/// The agent's namespaced role and its binding, ready to apply.
pub open spec fn render_namespaced_view(cfg: EffectiveConfigView) -> Seq<RenderedView> {
    seq![
        typed_view(ObjectView::Role(config_reader_view(cfg))),
        typed_view(ObjectView::RoleBinding(config_reader_binding_view(cfg))),
    ]
}

/// The agent's namespaced role and its binding, ready to apply.
pub fn render_namespaced(cfg: &EffectiveConfig) -> (r: Vec<Rendered>)
    ensures
        r.deep_view() == render_namespaced_view(cfg.deep_view()),
{
    let r = vec![
        typed(Object::Role(config_reader(cfg))),
        typed(Object::RoleBinding(config_reader_binding(cfg))),
    ];
    assert(r.deep_view() =~= render_namespaced_view(cfg.deep_view()));
    r
}

} // verus!
