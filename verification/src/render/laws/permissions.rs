//! Who may do what.

use vstd::prelude::*;

use crate::k8s::rbac::{PolicyRuleView, SubjectView};
use crate::modes::EffectiveConfigView;
use crate::render::object::{BodyView, RenderedView};

verus! {

use crate::render::laws::lemma_ids_spelled;
use crate::render::object::typed_view;
use crate::render::{agent, envoy, operator, rbac};

// --- permissions -----------------------------------------------------------

/// A rule that lets a verb be used on a resource of a group.
pub open spec fn grants(
    rule: PolicyRuleView,
    group: Seq<char>,
    resource: Seq<char>,
    verb: Seq<char>,
) -> bool {
    &&& rule.api_groups matches Some(groups) && groups.contains(group)
    &&& rule.resources matches Some(resources) && resources.contains(resource)
    &&& rule.verbs.contains(verb)
}

/// Some rule that does.
pub open spec fn may(
    rules: Seq<PolicyRuleView>,
    group: Seq<char>,
    resource: Seq<char>,
    verb: Seq<char>,
) -> bool {
    exists|i: int| 0 <= i < rules.len() && grants(#[trigger] rules[i], group, resource, verb)
}

/// Reading, and nothing else.
pub open spec fn reads(verb: Seq<char>) -> bool {
    verb == "get"@ || verb == "list"@ || verb == "watch"@
}

/// What the agent may do: read the cluster's state, keep its own pods and nodes,
/// and write the CRs of Cilium. It creates no CRD and writes no Secret.
pub open spec fn agent_may(group: Seq<char>, resource: Seq<char>, verb: Seq<char>) -> bool {
    ||| group == ""@ && {
        ||| (resource == "namespaces"@ || resource == "services"@ || resource == "endpoints"@
            || resource == "nodes"@ || resource == "secrets"@) && reads(verb)
        ||| (resource == "pods"@ || resource == "pods/finalizers"@) && (reads(verb) || verb
            == "update"@ || verb == "delete"@)
        ||| (resource == "nodes"@ || resource == "nodes/status"@) && verb == "patch"@
    }
    ||| group == "discovery.k8s.io"@ && resource == "endpointslices"@ && reads(verb)
    ||| group == "networking.k8s.io"@ && resource == "networkpolicies"@ && reads(verb)
    ||| group == "apiextensions.k8s.io"@ && resource == "customresourcedefinitions"@ && reads(verb)
    ||| group == "cilium.io"@ && {
        ||| agents_own(resource) && (reads(verb) || verb == "create"@ || verb == "update"@ || verb
            == "patch"@ || verb == "delete"@)
        ||| agents_report_on(resource) && (verb == "patch"@ || verb == "update"@)
    }
    ||| group == "coordination.k8s.io"@ && resource == "leases"@ && holds_lease(verb)
}

/// The CRs that the agent writes.
pub open spec fn agents_own(resource: Seq<char>) -> bool {
    ||| resource == "ciliumnetworkpolicies"@
    ||| resource == "ciliumclusterwidenetworkpolicies"@
    ||| resource == "ciliumendpoints"@
    ||| resource == "ciliumendpointslices"@
    ||| resource == "ciliumnodes"@
    ||| resource == "ciliumidentities"@
    ||| resource == "ciliumloadbalancerippools"@
    ||| resource == "ciliuml2announcementpolicies"@
    ||| resource == "ciliumbgpclusterconfigs"@
    ||| resource == "ciliumbgppeerconfigs"@
    ||| resource == "ciliumbgpadvertisements"@
    ||| resource == "ciliumbgpnodeconfigs"@
    ||| resource == "ciliumcidrgroups"@
    ||| resource == "ciliumclusterwideenvoyconfigs"@
    ||| resource == "ciliumenvoyconfigs"@
    ||| resource == "ciliumpodippools"@
}

/// The CRs whose status the agent writes.
pub open spec fn agents_report_on(resource: Seq<char>) -> bool {
    ||| resource == "ciliumnetworkpolicies/status"@
    ||| resource == "ciliumclusterwidenetworkpolicies/status"@
    ||| resource == "ciliumendpoints/status"@
    ||| resource == "ciliumnodes/status"@
    ||| resource == "ciliumbgpnodeconfigs/status"@
}

/// What leader election takes.
pub open spec fn holds_lease(verb: Seq<char>) -> bool {
    verb == "create"@ || verb == "get"@ || verb == "update"@ || verb == "list"@ || verb
        == "delete"@
}

/// What `cilium-operator` may do: beyond reading, it installs CRDs, owns every CR
/// of Cilium, collects pods, keeps Secrets and records events.
pub open spec fn operator_may(group: Seq<char>, resource: Seq<char>, verb: Seq<char>) -> bool {
    ||| group == ""@ && {
        ||| (resource == "pods"@ || resource == "nodes"@ || resource == "namespaces"@ || resource
            == "services"@ || resource == "endpoints"@) && reads(verb)
        ||| resource == "pods"@ && verb == "delete"@
        ||| (resource == "nodes"@ || resource == "nodes/status"@) && (verb == "patch"@ || verb
            == "update"@)
        ||| resource == "secrets"@ && (reads(verb) || verb == "create"@ || verb == "update"@
            || verb == "delete"@)
        ||| resource == "events"@ && (verb == "create"@ || verb == "patch"@ || verb == "update"@)
    }
    ||| group == "discovery.k8s.io"@ && resource == "endpointslices"@ && reads(verb)
    ||| group == "networking.k8s.io"@ && (resource == "networkpolicies"@ || resource
        == "ingresses"@ || resource == "ingressclasses"@) && reads(verb)
    ||| group == "apiextensions.k8s.io"@ && resource == "customresourcedefinitions"@ && (reads(verb)
        || verb == "create"@ || verb == "update"@ || verb == "patch"@)
    ||| group == "cilium.io"@ && resource == "*"@ && verb == "*"@
    ||| group == "coordination.k8s.io"@ && resource == "leases"@ && holds_lease(verb)
}

proof fn lemma_contains(s: Seq<Seq<char>>, x: Seq<char>)
    requires
        s.len() <= 16,
    ensures
        s.contains(x) <==> {
            ||| 0 < s.len() && s[0] == x
            ||| 1 < s.len() && s[1] == x
            ||| 2 < s.len() && s[2] == x
            ||| 3 < s.len() && s[3] == x
            ||| 4 < s.len() && s[4] == x
            ||| 5 < s.len() && s[5] == x
            ||| 6 < s.len() && s[6] == x
            ||| 7 < s.len() && s[7] == x
            ||| 8 < s.len() && s[8] == x
            ||| 9 < s.len() && s[9] == x
            ||| 10 < s.len() && s[10] == x
            ||| 11 < s.len() && s[11] == x
            ||| 12 < s.len() && s[12] == x
            ||| 13 < s.len() && s[13] == x
            ||| 14 < s.len() && s[14] == x
            ||| 15 < s.len() && s[15] == x
        },
{
}

proof fn lemma_grants(
    rule: PolicyRuleView,
    group: Seq<char>,
    resource: Seq<char>,
    verb: Seq<char>,
)
    requires
        rule.api_groups is Some && rule.api_groups->0.len() == 1,
        rule.resources is Some && rule.resources->0.len() <= 16,
        rule.verbs.len() <= 16,
    ensures
        grants(rule, group, resource, verb) <==> rule.api_groups->0[0] == group && {
            ||| 0 < rule.resources->0.len() && rule.resources->0[0] == resource
            ||| 1 < rule.resources->0.len() && rule.resources->0[1] == resource
            ||| 2 < rule.resources->0.len() && rule.resources->0[2] == resource
            ||| 3 < rule.resources->0.len() && rule.resources->0[3] == resource
            ||| 4 < rule.resources->0.len() && rule.resources->0[4] == resource
            ||| 5 < rule.resources->0.len() && rule.resources->0[5] == resource
            ||| 6 < rule.resources->0.len() && rule.resources->0[6] == resource
            ||| 7 < rule.resources->0.len() && rule.resources->0[7] == resource
            ||| 8 < rule.resources->0.len() && rule.resources->0[8] == resource
            ||| 9 < rule.resources->0.len() && rule.resources->0[9] == resource
            ||| 10 < rule.resources->0.len() && rule.resources->0[10] == resource
            ||| 11 < rule.resources->0.len() && rule.resources->0[11] == resource
            ||| 12 < rule.resources->0.len() && rule.resources->0[12] == resource
            ||| 13 < rule.resources->0.len() && rule.resources->0[13] == resource
            ||| 14 < rule.resources->0.len() && rule.resources->0[14] == resource
            ||| 15 < rule.resources->0.len() && rule.resources->0[15] == resource
        } && {
            ||| 0 < rule.verbs.len() && rule.verbs[0] == verb
            ||| 1 < rule.verbs.len() && rule.verbs[1] == verb
            ||| 2 < rule.verbs.len() && rule.verbs[2] == verb
            ||| 3 < rule.verbs.len() && rule.verbs[3] == verb
            ||| 4 < rule.verbs.len() && rule.verbs[4] == verb
            ||| 5 < rule.verbs.len() && rule.verbs[5] == verb
            ||| 6 < rule.verbs.len() && rule.verbs[6] == verb
            ||| 7 < rule.verbs.len() && rule.verbs[7] == verb
            ||| 8 < rule.verbs.len() && rule.verbs[8] == verb
            ||| 9 < rule.verbs.len() && rule.verbs[9] == verb
            ||| 10 < rule.verbs.len() && rule.verbs[10] == verb
            ||| 11 < rule.verbs.len() && rule.verbs[11] == verb
            ||| 12 < rule.verbs.len() && rule.verbs[12] == verb
            ||| 13 < rule.verbs.len() && rule.verbs[13] == verb
            ||| 14 < rule.verbs.len() && rule.verbs[14] == verb
            ||| 15 < rule.verbs.len() && rule.verbs[15] == verb
        },
{
    lemma_contains(rule.api_groups->0, group);
    lemma_contains(rule.resources->0, resource);
    lemma_contains(rule.verbs, verb);
}

proof fn lemma_may(
    rules: Seq<PolicyRuleView>,
    group: Seq<char>,
    resource: Seq<char>,
    verb: Seq<char>,
)
    requires
        rules.len() == 10,
    ensures
        may(rules, group, resource, verb) <==> {
            ||| grants(rules[0], group, resource, verb)
            ||| grants(rules[1], group, resource, verb)
            ||| grants(rules[2], group, resource, verb)
            ||| grants(rules[3], group, resource, verb)
            ||| grants(rules[4], group, resource, verb)
            ||| grants(rules[5], group, resource, verb)
            ||| grants(rules[6], group, resource, verb)
            ||| grants(rules[7], group, resource, verb)
            ||| grants(rules[8], group, resource, verb)
            ||| grants(rules[9], group, resource, verb)
        },
{
}

/// The rules of a rendered ClusterRole or Role.
pub open spec fn rules_of(r: RenderedView) -> Seq<PolicyRuleView> {
    match r.obj.body {
        BodyView::ClusterRole { rules: Some(rules) } => rules,
        BodyView::Role { rules: Some(rules) } => rules,
        _ => seq![],
    }
}

/// The ClusterRole of the agent allows exactly what the agent may do.
pub proof fn law_what_the_agent_may_do(
    cfg: EffectiveConfigView,
    group: Seq<char>,
    resource: Seq<char>,
    verb: Seq<char>,
)
    ensures
        rbac::render_view(cfg)[2].id() == "ClusterRole/cilium"@,
        may(rules_of(rbac::render_view(cfg)[2]), group, resource, verb) <==> agent_may(
            group,
            resource,
            verb,
        ),
{
    reveal(typed_view);
    reveal(rbac::agent_rules_view);
    lemma_ids_spelled();
    let rules = rbac::agent_rules_view();
    lemma_may(rules, group, resource, verb);
    lemma_grants(rules[0], group, resource, verb);
    lemma_grants(rules[1], group, resource, verb);
    lemma_grants(rules[2], group, resource, verb);
    lemma_grants(rules[3], group, resource, verb);
    lemma_grants(rules[4], group, resource, verb);
    lemma_grants(rules[5], group, resource, verb);
    lemma_grants(rules[6], group, resource, verb);
    lemma_grants(rules[7], group, resource, verb);
    lemma_grants(rules[8], group, resource, verb);
    lemma_grants(rules[9], group, resource, verb);
}

/// The ClusterRole of `cilium-operator` allows exactly what it may do.
pub proof fn law_what_the_operator_may_do(
    cfg: EffectiveConfigView,
    group: Seq<char>,
    resource: Seq<char>,
    verb: Seq<char>,
)
    ensures
        rbac::render_view(cfg)[3].id() == "ClusterRole/cilium-operator"@,
        may(rules_of(rbac::render_view(cfg)[3]), group, resource, verb) <==> operator_may(
            group,
            resource,
            verb,
        ),
{
    reveal(typed_view);
    reveal(rbac::operator_rules_view);
    lemma_ids_spelled();
    let rules = rbac::operator_rules_view();
    lemma_may(rules, group, resource, verb);
    lemma_grants(rules[0], group, resource, verb);
    lemma_grants(rules[1], group, resource, verb);
    lemma_grants(rules[2], group, resource, verb);
    lemma_grants(rules[3], group, resource, verb);
    lemma_grants(rules[4], group, resource, verb);
    lemma_grants(rules[5], group, resource, verb);
    lemma_grants(rules[6], group, resource, verb);
    lemma_grants(rules[7], group, resource, verb);
    lemma_grants(rules[8], group, resource, verb);
    lemma_grants(rules[9], group, resource, verb);
}

/// In its own namespace the agent may read ConfigMaps, and nothing else.
pub proof fn law_what_the_agent_may_read_in_its_namespace(
    cfg: EffectiveConfigView,
    group: Seq<char>,
    resource: Seq<char>,
    verb: Seq<char>,
)
    ensures
        rbac::render_namespaced_view(cfg)[0].id() == "Role/kube-system/cilium-config-agent"@,
        may(rules_of(rbac::render_namespaced_view(cfg)[0]), group, resource, verb) <==> group
            == ""@ && resource == "configmaps"@ && reads(verb),
{
    reveal(typed_view);
    lemma_ids_spelled();
    let rules = rbac::config_reader_rules_view();
    lemma_grants(rules[0], group, resource, verb);
}

// --- who has them ----------------------------------------------------------

/// An identity of the namespace that the install lands in.
pub open spec fn is_account(s: SubjectView, name: Seq<char>) -> bool {
    &&& s.kind == "ServiceAccount"@
    &&& s.name == name
    &&& s.namespace == Some("kube-system"@)
    &&& s.api_group is None
}

/// A binding that gives a role, by its kind and name, to one identity.
pub open spec fn gives(r: RenderedView, kind: Seq<char>, role: Seq<char>, account: Seq<char>) -> bool {
    match r.obj.body {
        BodyView::ClusterRoleBinding { role_ref, subjects: Some(subjects) } => {
            &&& kind == "ClusterRole"@
            &&& role_ref.api_group == "rbac.authorization.k8s.io"@
            &&& role_ref.kind == kind && role_ref.name == role
            &&& subjects.len() == 1 && is_account(subjects[0], account)
        },
        BodyView::RoleBinding { role_ref, subjects: Some(subjects) } => {
            &&& kind == "Role"@
            &&& role_ref.api_group == "rbac.authorization.k8s.io"@
            &&& role_ref.kind == kind && role_ref.name == role
            &&& subjects.len() == 1 && is_account(subjects[0], account)
        },
        _ => false,
    }
}

/// Each identity is given the role that is made for it, and is the one that its
/// workload runs under: the role by the name that it is rendered under, the identity
/// by the name of its ServiceAccount.
pub proof fn law_each_identity_has_its_own_role(cfg: EffectiveConfigView)
    ensures
        ({
            let all = rbac::render_view(cfg);
            let own = rbac::render_namespaced_view(cfg);
            &&& all[0].id() == "ServiceAccount/kube-system/cilium"@
            &&& all[1].id() == "ServiceAccount/kube-system/cilium-operator"@
            &&& all[4].id() == "ClusterRoleBinding/cilium"@
            &&& all[5].id() == "ClusterRoleBinding/cilium-operator"@
            &&& own[1].id() == "RoleBinding/kube-system/cilium-config-agent"@
            // The agent.
            &&& gives(all[4], "ClusterRole"@, all[2].name(), all[0].name())
            &&& rules_of(all[2]) == rbac::agent_rules_view()
            &&& agent::pod_spec_view(cfg).service_account_name == Some(all[0].name())
            &&& gives(own[1], "Role"@, own[0].name(), all[0].name())
            // `cilium-operator`.
            &&& gives(all[5], "ClusterRole"@, all[3].name(), all[1].name())
            &&& rules_of(all[3]) == rbac::operator_rules_view()
            &&& operator::pod_spec_view(cfg).service_account_name == Some(all[1].name())
            // Envoy is given nothing.
            &&& cfg.envoy ==> envoy::pod_spec_view(cfg).service_account_name == Some(
                envoy::render_view(cfg)[0].name(),
            ) && envoy::render_view(cfg)[0].id() == "ServiceAccount/kube-system/cilium-envoy"@
        }),
{
    reveal(typed_view);
    lemma_ids_spelled();
}

/// A binding of any name gives the role of that name to the identity of that name.
pub proof fn law_a_binding_gives_the_role_of_its_name(cfg: EffectiveConfigView, name: Seq<char>)
    ensures
        ({
            let b = rbac::binding_view(cfg, name);
            &&& b.metadata.name == Some(name) && b.metadata.namespace is None
            &&& b.role_ref.kind == "ClusterRole"@
            &&& b.role_ref.api_group == "rbac.authorization.k8s.io"@
            &&& b.role_ref.name == name
            &&& b.subjects matches Some(subjects) && subjects.len() == 1 && is_account(
                subjects[0],
                name,
            )
        }),
{
}

/// Only `cilium-operator` creates CRDs, and nobody deletes one.
pub proof fn law_only_the_operator_creates_crds(cfg: EffectiveConfigView)
    ensures
        ({
            let agent = rules_of(rbac::render_view(cfg)[2]);
            let operator = rules_of(rbac::render_view(cfg)[3]);
            let group = "apiextensions.k8s.io"@;
            let crds = "customresourcedefinitions"@;
            &&& may(operator, group, crds, "create"@)
            &&& !may(agent, group, crds, "create"@)
            &&& !may(agent, group, crds, "delete"@)
            &&& !may(operator, group, crds, "delete"@)
        }),
{
    let group = "apiextensions.k8s.io"@;
    let crds = "customresourcedefinitions"@;
    law_what_the_operator_may_do(cfg, group, crds, "create"@);
    law_what_the_agent_may_do(cfg, group, crds, "create"@);
    law_what_the_agent_may_do(cfg, group, crds, "delete"@);
    law_what_the_operator_may_do(cfg, group, crds, "delete"@);
    reveal_strlit("");
    reveal_strlit("apiextensions.k8s.io");
    reveal_strlit("discovery.k8s.io");
    reveal_strlit("networking.k8s.io");
    reveal_strlit("cilium.io");
    reveal_strlit("coordination.k8s.io");
    reveal_strlit("create");
    reveal_strlit("delete");
    reveal_strlit("get");
    reveal_strlit("list");
    reveal_strlit("watch");
    reveal_strlit("update");
    reveal_strlit("patch");
    assert(group.len() == 20);
    assert("create"@[0] == 'c' && "delete"@[0] == 'd' && "get"@[0] == 'g' && "list"@[0] == 'l'
        && "watch"@[0] == 'w' && "update"@[0] == 'u' && "patch"@[0] == 'p');
    assert(""@.len() == 0 && "discovery.k8s.io"@.len() == 16 && "networking.k8s.io"@.len() == 17
        && "cilium.io"@.len() == 9 && "coordination.k8s.io"@.len() == 19);
}

} // verus!
