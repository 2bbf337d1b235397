use vstd::prelude::*;
use crate::envelope::{emission_command, outcome_emission_spec, Emission};
use crate::text::str_eq;

verus! {

/// A resource kind that `get_resource` accepts.
#[derive(PartialEq, Eq, Structural, Clone, Copy, Debug)]
pub enum ResourceKind {
    Deployment,
    Namespace,
    Pod,
    Node,
    CronJob,
    ConfigMap,
    Service,
    DaemonSet,
    PersistentVolume,
    StatefulSet,
    ReplicaSet,
}

/// One list operation of the cluster API.
#[derive(PartialEq, Eq, Structural, Clone, Copy, Debug)]
pub enum ListTarget {
    Deployments,
    Namespaces,
    Pods,
    Nodes,
    NodeMetrics,
    CronJobs,
    ConfigMaps,
    Secrets,
    Services,
    DaemonSets,
    ReplicaSets,
    PersistentVolumes,
    StatefulSets,
}

/// The name by which a command selects a kind.
pub open spec fn kind_name(k: ResourceKind) -> Seq<char> {
    match k {
        ResourceKind::Deployment => "deployment"@,
        ResourceKind::Namespace => "namespace"@,
        ResourceKind::Pod => "pod"@,
        ResourceKind::Node => "node"@,
        ResourceKind::CronJob => "cronjob"@,
        ResourceKind::ConfigMap => "configmap"@,
        ResourceKind::Service => "service"@,
        ResourceKind::DaemonSet => "daemonset"@,
        ResourceKind::PersistentVolume => "persistentvolume"@,
        ResourceKind::StatefulSet => "statefulset"@,
        ResourceKind::ReplicaSet => "replicaset"@,
    }
}

/// Resolves a kind name exactly (case and spacing matter); `None` for a
/// name that no kind has.
pub fn parse_kind(s: &str) -> (r: Option<ResourceKind>)
    ensures
        r matches Some(k) ==> kind_name(k) == s@,
        r is None ==> forall|k: ResourceKind| kind_name(k) != s@,
{
    if str_eq(s, "deployment") {
        Some(ResourceKind::Deployment)
    } else if str_eq(s, "namespace") {
        Some(ResourceKind::Namespace)
    } else if str_eq(s, "pod") {
        Some(ResourceKind::Pod)
    } else if str_eq(s, "node") {
        Some(ResourceKind::Node)
    } else if str_eq(s, "cronjob") {
        Some(ResourceKind::CronJob)
    } else if str_eq(s, "configmap") {
        Some(ResourceKind::ConfigMap)
    } else if str_eq(s, "service") {
        Some(ResourceKind::Service)
    } else if str_eq(s, "daemonset") {
        Some(ResourceKind::DaemonSet)
    } else if str_eq(s, "persistentvolume") {
        Some(ResourceKind::PersistentVolume)
    } else if str_eq(s, "statefulset") {
        Some(ResourceKind::StatefulSet)
    } else if str_eq(s, "replicaset") {
        Some(ResourceKind::ReplicaSet)
    } else {
        None
    }
}

/// Whether a list target is cluster scoped (listed without a namespace).
pub open spec fn cluster_scoped(t: ListTarget) -> bool {
    t == ListTarget::Namespaces || t == ListTarget::Nodes || t == ListTarget::NodeMetrics
        || t == ListTarget::PersistentVolumes
}

/// Whether a list target is cluster scoped.
pub fn is_cluster_scoped(t: ListTarget) -> (r: bool)
    ensures
        r == cluster_scoped(t),
{
    match t {
        ListTarget::Namespaces | ListTarget::Nodes | ListTarget::NodeMetrics
        | ListTarget::PersistentVolumes => true,
        _ => false,
    }
}

/// The list calls that fetching a kind makes, in order: "node" also lists
/// node metrics, "configmap" also lists secrets, every other kind makes one.
pub open spec fn fetch_plan(k: ResourceKind) -> Seq<ListTarget> {
    match k {
        ResourceKind::Deployment => seq![ListTarget::Deployments],
        ResourceKind::Namespace => seq![ListTarget::Namespaces],
        ResourceKind::Pod => seq![ListTarget::Pods],
        ResourceKind::Node => seq![ListTarget::Nodes, ListTarget::NodeMetrics],
        ResourceKind::CronJob => seq![ListTarget::CronJobs],
        ResourceKind::ConfigMap => seq![ListTarget::ConfigMaps, ListTarget::Secrets],
        ResourceKind::Service => seq![ListTarget::Services],
        ResourceKind::DaemonSet => seq![ListTarget::DaemonSets],
        ResourceKind::PersistentVolume => seq![ListTarget::PersistentVolumes],
        ResourceKind::StatefulSet => seq![ListTarget::StatefulSets],
        ResourceKind::ReplicaSet => seq![ListTarget::ReplicaSets],
    }
}

/// The list calls that fetching a kind makes.
pub fn list_targets(k: ResourceKind) -> (r: Vec<ListTarget>)
    ensures
        r@ == fetch_plan(k),
{
    let r = match k {
        ResourceKind::Deployment => vec![ListTarget::Deployments],
        ResourceKind::Namespace => vec![ListTarget::Namespaces],
        ResourceKind::Pod => vec![ListTarget::Pods],
        ResourceKind::Node => vec![ListTarget::Nodes, ListTarget::NodeMetrics],
        ResourceKind::CronJob => vec![ListTarget::CronJobs],
        ResourceKind::ConfigMap => vec![ListTarget::ConfigMaps, ListTarget::Secrets],
        ResourceKind::Service => vec![ListTarget::Services],
        ResourceKind::DaemonSet => vec![ListTarget::DaemonSets],
        ResourceKind::PersistentVolume => vec![ListTarget::PersistentVolumes],
        ResourceKind::StatefulSet => vec![ListTarget::StatefulSets],
        ResourceKind::ReplicaSet => vec![ListTarget::ReplicaSets],
    };
    assert(r@ =~= fetch_plan(k));
    r
}

/// One list call to make for a dispatched command: what to list, in which
/// namespace (`None` for a cluster-scoped target), and the command name that
/// its result envelope carries.
#[derive(Clone, Debug)]
pub struct ListRequest {
    pub target: ListTarget,
    pub namespace: Option<String>,
    pub command: String,
}

/// `r` is the request for target `t` on behalf of `command` in `namespace`.
pub open spec fn request_for(r: ListRequest, t: ListTarget, namespace: Seq<char>, command: Seq<char>) -> bool {
    &&& r.target == t
    &&& r.command@ == command
    &&& if cluster_scoped(t) { r.namespace is None } else { r.namespace matches Some(n) && n@ == namespace }
}

/// The list calls that a `get_resource` command makes, in order.
pub open spec fn requests_spec(
    r: Seq<ListRequest>,
    plan: Seq<ListTarget>,
    namespace: Seq<char>,
    command: Seq<char>,
) -> bool {
    &&& r.len() == plan.len()
    &&& forall|i: int| 0 <= i < r.len() ==> request_for(#[trigger] r[i], plan[i], namespace, command)
}

/// The plan of a kind name: that kind's list calls, or none for a name that
/// no kind has.
pub open spec fn plan_of_name(kind: Seq<char>) -> Seq<ListTarget> {
    if exists|k: ResourceKind| kind_name(k) == kind {
        fetch_plan(choose|k: ResourceKind| kind_name(k) == kind)
    } else {
        seq![]
    }
}

/// Distinct kinds have distinct names.
pub proof fn lemma_kind_names_distinct(a: ResourceKind, b: ResourceKind)
    ensures
        kind_name(a) == kind_name(b) ==> a == b,
{
    reveal_strlit("deployment");
    reveal_strlit("namespace");
    reveal_strlit("pod");
    reveal_strlit("node");
    reveal_strlit("cronjob");
    reveal_strlit("configmap");
    reveal_strlit("service");
    reveal_strlit("daemonset");
    reveal_strlit("persistentvolume");
    reveal_strlit("statefulset");
    reveal_strlit("replicaset");
    if kind_name(a) == kind_name(b) && a != b {
        assert(kind_name(a).len() != kind_name(b).len() || kind_name(a)[0] != kind_name(b)[0]
            || kind_name(a)[1] != kind_name(b)[1] || kind_name(a)[2] != kind_name(b)[2]);
    }
}

/// Turns a `get_resource` command into its list calls. An unrecognised kind
/// makes none: nothing is listed and nothing is emitted.
pub fn get_resource(namespace: &str, kind: &str, command: &str) -> (r: Vec<ListRequest>)
    ensures
        requests_spec(r@, plan_of_name(kind@), namespace@, command@),
{
    match parse_kind(kind) {
        None => {
            let r: Vec<ListRequest> = Vec::new();
            r
        },
        Some(k) => {
            proof {
                let c = choose|c: ResourceKind| kind_name(c) == kind@;
                lemma_kind_names_distinct(c, k);
            }
            let plan = list_targets(k);
            let mut r: Vec<ListRequest> = Vec::new();
            let mut i: usize = 0;
            while i < plan.len()
                invariant
                    plan@ == fetch_plan(k),
                    i <= plan@.len(),
                    r@.len() == i,
                    forall|j: int| 0 <= j < i ==> request_for(#[trigger] r@[j], plan@[j], namespace@, command@),
                decreases plan@.len() - i,
            {
                let t = plan[i];
                let ns = if is_cluster_scoped(t) { None } else { Some(String::from_str(namespace)) };
                r.push(ListRequest { target: t, namespace: ns, command: String::from_str(command) });
                i = i + 1;
            }
            r
        },
    }
}

/// The plan of a kind's own name is that kind's plan.
pub proof fn lemma_plan_of_kind_name(k: ResourceKind)
    ensures
        plan_of_name(kind_name(k)) == fetch_plan(k),
{
    let c = choose|c: ResourceKind| kind_name(c) == kind_name(k);
    lemma_kind_names_distinct(c, k);
}

/// Fetching any kind other than "node" and "configmap" makes exactly one list
/// call, and the envelope that reports its outcome carries the dispatched
/// command name.
pub proof fn law_one_list_call_per_kind(
    k: ResourceKind,
    command: Seq<char>,
    outcome: Result<Seq<char>, Seq<char>>,
    e: Emission,
)
    requires
        k != ResourceKind::Node,
        k != ResourceKind::ConfigMap,
        outcome_emission_spec(command, outcome, e),
    ensures
        plan_of_name(kind_name(k)).len() == 1,
        emission_command(e) == Some(command),
{
    lemma_plan_of_kind_name(k);
}

/// Fetching "node" lists nodes and then node metrics, and fetching
/// "configmap" lists config maps and then secrets; the envelopes that report
/// the outcomes of a command's calls all carry that command's name.
pub proof fn law_composite_kinds_emit_two(
    command: Seq<char>,
    outcomes: Seq<Result<Seq<char>, Seq<char>>>,
    es: Seq<Emission>,
)
    requires
        es.len() == outcomes.len(),
        forall|i: int| 0 <= i < es.len() ==> outcome_emission_spec(command, outcomes[i], #[trigger] es[i]),
    ensures
        plan_of_name("node"@) == seq![ListTarget::Nodes, ListTarget::NodeMetrics],
        plan_of_name("configmap"@) == seq![ListTarget::ConfigMaps, ListTarget::Secrets],
        forall|i: int| 0 <= i < es.len() ==> emission_command(#[trigger] es[i]) == Some(command),
{
    lemma_plan_of_kind_name(ResourceKind::Node);
    lemma_plan_of_kind_name(ResourceKind::ConfigMap);
}

} // verus!
