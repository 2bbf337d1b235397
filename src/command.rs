use vstd::prelude::*;
use crate::kinds::{get_resource, plan_of_name, requests_spec, ListRequest};
use crate::registry::StreamCategory;
use crate::kubeconfig::{resource_template, template_spec};
use crate::text::{lower_of, str_eq, to_lower, trim_of, trimmed};

verus! {

/// A command as the UI sends it: a name and its arguments, in the order the
/// object listed them.
#[derive(Clone, Debug)]
pub struct CommandEnvelope {
    pub command: String,
    pub args: Vec<(String, String)>,
}

/// The value of an argument: a key given twice keeps its last value, as when
/// the arguments are read into a map.
pub open spec fn arg(args: Seq<(String, String)>, key: Seq<char>) -> Option<Seq<char>>
    decreases args.len(),
{
    if args.len() == 0 {
        None
    } else if args.last().0@ == key {
        Some(args.last().1@)
    } else {
        arg(args.drop_last(), key)
    }
}

/// Looks an argument up.
pub fn get_arg(args: &Vec<(String, String)>, key: &str) -> (r: Option<String>)
    ensures
        match r {
            Some(v) => arg(args@, key@) == Some(v@),
            None => arg(args@, key@) is None,
        },
{
    let mut i: usize = args.len();
    assert(args@.subrange(0, i as int) =~= args@);
    while i > 0
        invariant
            i <= args@.len(),
            arg(args@, key@) == arg(args@.subrange(0, i as int), key@),
        decreases i,
    {
        let ghost pre = args@.subrange(0, i as int);
        assert(pre.drop_last() =~= args@.subrange(0, i - 1));
        if str_eq(args[i - 1].0.as_str(), key) {
            return Some(args[i - 1].1.clone());
        }
        i = i - 1;
    }
    assert(args@.subrange(0, 0) =~= Seq::<(String, String)>::empty());
    None
}

/// The argument keys that commands require.
#[derive(PartialEq, Eq, Structural, Clone, Copy, Debug)]
pub enum ArgKey {
    Ns,
    Kind,
    Name,
    Resource,
    Pod,
    Deployment,
    Command,
    Cluster,
    License,
    Key,
    Value,
}

/// The text of an argument key.
pub open spec fn key_name(k: ArgKey) -> Seq<char> {
    match k {
        ArgKey::Ns => "ns"@,
        ArgKey::Kind => "kind"@,
        ArgKey::Name => "name"@,
        ArgKey::Resource => "resource"@,
        ArgKey::Pod => "pod"@,
        ArgKey::Deployment => "deployment"@,
        ArgKey::Command => "command"@,
        ArgKey::Cluster => "cluster"@,
        ArgKey::License => "license"@,
        ArgKey::Key => "key"@,
        ArgKey::Value => "value"@,
    }
}

/// The text of an argument key.
pub fn key_str(k: ArgKey) -> (r: &'static str)
    ensures
        r@ == key_name(k),
{
    match k {
        ArgKey::Ns => "ns",
        ArgKey::Kind => "kind",
        ArgKey::Name => "name",
        ArgKey::Resource => "resource",
        ArgKey::Pod => "pod",
        ArgKey::Deployment => "deployment",
        ArgKey::Command => "command",
        ArgKey::Cluster => "cluster",
        ArgKey::License => "license",
        ArgKey::Key => "key",
        ArgKey::Value => "value",
    }
}

/// Why a command could not be resolved.
#[derive(PartialEq, Eq, Structural, Clone, Copy, Debug)]
pub enum CommandError {
    UnknownCommand,
    MissingArgument(ArgKey),
}

/// The text that reports a command error.
pub open spec fn error_message_spec(e: CommandError) -> Seq<char> {
    match e {
        CommandError::UnknownCommand => "unknown command"@,
        CommandError::MissingArgument(k) => "missing argument: "@ + key_name(k),
    }
}

impl CommandError {
    /// The text that reports this error.
    pub fn message(&self) -> (r: String)
        ensures
            r@ == error_message_spec(*self),
    {
        match self {
            CommandError::UnknownCommand => String::from_str("unknown command"),
            CommandError::MissingArgument(k) => {
                let mut r = String::from_str("missing argument: ");
                r.append(key_str(*k));
                r
            },
        }
    }
}

/// Commands that act on one named pod or deployment.
#[derive(PartialEq, Eq, Structural, Clone, Copy, Debug)]
pub enum TargetOp {
    PodsForDeployment,
    MetricsForDeployment,
    RestartDeployment,
    TailLogs,
    OpenShell,
    GetLogs,
    EnvironmentVariables,
    StreamPodMetrics,
    StreamDeploymentMetrics,
}

/// The command name of a targeted operation.
pub open spec fn op_name(op: TargetOp) -> Seq<char> {
    match op {
        TargetOp::PodsForDeployment => "get_pods_for_deployment_async"@,
        TargetOp::MetricsForDeployment => "get_metrics_for_deployment"@,
        TargetOp::RestartDeployment => "restart_deployments"@,
        TargetOp::TailLogs => "tail_logs_for_pod"@,
        TargetOp::OpenShell => "open_shell"@,
        TargetOp::GetLogs => "get_logs_for_pod"@,
        TargetOp::EnvironmentVariables => "get_environment_variables_for_pod"@,
        TargetOp::StreamPodMetrics => "stream_metrics_for_pod"@,
        TargetOp::StreamDeploymentMetrics => "stream_metrics_for_deployment"@,
    }
}

/// The argument that names the target: a pod or a deployment.
pub open spec fn op_target_key(op: TargetOp) -> ArgKey {
    match op {
        TargetOp::PodsForDeployment | TargetOp::MetricsForDeployment | TargetOp::RestartDeployment
        | TargetOp::StreamDeploymentMetrics => ArgKey::Deployment,
        _ => ArgKey::Pod,
    }
}

/// The argument that names the target of an operation.
pub fn target_key(op: TargetOp) -> (r: ArgKey)
    ensures
        r == op_target_key(op),
{
    match op {
        TargetOp::PodsForDeployment | TargetOp::MetricsForDeployment | TargetOp::RestartDeployment
        | TargetOp::StreamDeploymentMetrics => ArgKey::Deployment,
        _ => ArgKey::Pod,
    }
}

/// The stream category that an operation starts, if it is long-lived.
pub open spec fn op_category_spec(op: TargetOp) -> Option<StreamCategory> {
    match op {
        TargetOp::TailLogs => Some(StreamCategory::Logs),
        TargetOp::OpenShell => Some(StreamCategory::Shell),
        TargetOp::StreamPodMetrics | TargetOp::StreamDeploymentMetrics => Some(StreamCategory::Metrics),
        _ => None,
    }
}

/// The stream category that an operation starts, if it is long-lived.
pub fn op_category(op: TargetOp) -> (r: Option<StreamCategory>)
    ensures
        r == op_category_spec(op),
{
    match op {
        TargetOp::TailLogs => Some(StreamCategory::Logs),
        TargetOp::OpenShell => Some(StreamCategory::Shell),
        TargetOp::StreamPodMetrics | TargetOp::StreamDeploymentMetrics => Some(StreamCategory::Metrics),
        _ => None,
    }
}

/// Resolves a targeted operation's command name.
pub fn parse_target_op(s: &str) -> (r: Option<TargetOp>)
    ensures
        r matches Some(op) ==> op_name(op) == s@,
        r is None ==> forall|op: TargetOp| op_name(op) != s@,
{
    if str_eq(s, "get_pods_for_deployment_async") {
        Some(TargetOp::PodsForDeployment)
    } else if str_eq(s, "get_metrics_for_deployment") {
        Some(TargetOp::MetricsForDeployment)
    } else if str_eq(s, "restart_deployments") {
        Some(TargetOp::RestartDeployment)
    } else if str_eq(s, "tail_logs_for_pod") {
        Some(TargetOp::TailLogs)
    } else if str_eq(s, "open_shell") {
        Some(TargetOp::OpenShell)
    } else if str_eq(s, "get_logs_for_pod") {
        Some(TargetOp::GetLogs)
    } else if str_eq(s, "get_environment_variables_for_pod") {
        Some(TargetOp::EnvironmentVariables)
    } else if str_eq(s, "stream_metrics_for_pod") {
        Some(TargetOp::StreamPodMetrics)
    } else if str_eq(s, "stream_metrics_for_deployment") {
        Some(TargetOp::StreamDeploymentMetrics)
    } else {
        None
    }
}

/// Distinct operations have distinct command names.
pub proof fn lemma_op_names_distinct(a: TargetOp, b: TargetOp)
    ensures
        op_name(a) == op_name(b) ==> a == b,
{
    reveal_strlit("get_pods_for_deployment_async");
    reveal_strlit("get_metrics_for_deployment");
    reveal_strlit("restart_deployments");
    reveal_strlit("tail_logs_for_pod");
    reveal_strlit("open_shell");
    reveal_strlit("get_logs_for_pod");
    reveal_strlit("get_environment_variables_for_pod");
    reveal_strlit("stream_metrics_for_pod");
    reveal_strlit("stream_metrics_for_deployment");
    if op_name(a) == op_name(b) && a != b {
        assert(op_name(a).len() != op_name(b).len() || op_name(a)[4] != op_name(b)[4]
            || op_name(a)[0] != op_name(b)[0] || op_name(a)[22] != op_name(b)[22]);
    }
}

/// What a dispatched command asks for; the caller runs it on a worker of
/// its own.
#[derive(Clone, Debug)]
pub enum Action {
    /// List every namespace.
    ListNamespaces,
    /// Make these list calls, each reported by its own envelope.
    Fetch(Vec<ListRequest>),
    /// Apply a serialized resource.
    Apply { resource: String, kind: String, namespace: Option<String> },
    /// Delete a named resource.
    Delete { namespace: String, name: String, kind: String },
    /// Fetch a kind together with its metrics.
    WithMetrics { namespace: String, kind: String },
    /// Run an operation on a named pod or deployment.
    Target { op: TargetOp, namespace: String, name: String },
    /// Forward input to the running shell sessions.
    SendToShell { input: String },
    /// Signal every stream of a category.
    Stop(StreamCategory),
    /// Report which clusters, license and agreement are present.
    AppStart,
}

/// The view of an optional string.
pub open spec fn opt_view(o: Option<String>) -> Option<Seq<char>> {
    match o {
        Some(s) => Some(s@),
        None => None,
    }
}

/// An optional argument's value, or the empty string.
pub open spec fn arg_or_empty(args: Seq<(String, String)>, key: Seq<char>) -> Seq<char> {
    match arg(args, key) {
        Some(v) => v,
        None => seq![],
    }
}

/// The first of the required keys that is missing, in the order given.
pub open spec fn first_missing(args: Seq<(String, String)>, keys: Seq<ArgKey>) -> Option<ArgKey>
    decreases keys.len(),
{
    if keys.len() == 0 {
        None
    } else if arg(args, key_name(keys[0])) is None {
        Some(keys[0])
    } else {
        first_missing(args, keys.skip(1))
    }
}

/// The value of a required key, as an `Ok` or its `MissingArgument` error.
pub fn require(args: &Vec<(String, String)>, k: ArgKey) -> (r: Result<String, CommandError>)
    ensures
        match r {
            Ok(v) => arg(args@, key_name(k)) == Some(v@),
            Err(e) => arg(args@, key_name(k)) is None && e == CommandError::MissingArgument(k),
        },
{
    match get_arg(args, key_str(k)) {
        Some(v) => Ok(v),
        None => Err(CommandError::MissingArgument(k)),
    }
}

/// The value of an optional key, or the empty string.
fn optional(args: &Vec<(String, String)>, k: ArgKey) -> (r: String)
    ensures
        r@ == arg_or_empty(args@, key_name(k)),
{
    match get_arg(args, key_str(k)) {
        Some(v) => v,
        None => String::new(),
    }
}

/// The resolution of an asynchronous command, given that its required keys
/// are all present.
pub open spec fn route_ok(cmd: Seq<char>, args: Seq<(String, String)>, a: Action) -> bool {
    if cmd == "get_all_ns"@ {
        a is ListNamespaces
    } else if cmd == "get_deployments"@ {
        a matches Action::Fetch(reqs) && requests_spec(
            reqs@,
            plan_of_name("deployment"@),
            arg_or_empty(args, "ns"@),
            cmd,
        )
    } else if cmd == "get_resource"@ {
        a matches Action::Fetch(reqs) && requests_spec(
            reqs@,
            plan_of_name(arg_or_empty(args, "kind"@)),
            arg_or_empty(args, "ns"@),
            cmd,
        )
    } else if cmd == "apply_resource"@ {
        a matches Action::Apply { resource, kind, namespace } && resource@ == arg_or_empty(args, "resource"@)
            && kind@ == arg_or_empty(args, "kind"@) && opt_view(namespace) == arg(args, "ns"@)
    } else if cmd == "delete_resource"@ {
        a matches Action::Delete { namespace, name, kind } && namespace@ == arg_or_empty(args, "ns"@)
            && name@ == arg_or_empty(args, "name"@) && kind@ == arg_or_empty(args, "kind"@)
    } else if cmd == "get_resource_with_metrics"@ {
        a matches Action::WithMetrics { namespace, kind } && namespace@ == arg_or_empty(args, "ns"@)
            && kind@ == trim_of(lower_of(arg_or_empty(args, "kind"@)))
    } else if cmd == "send_to_shell"@ {
        a matches Action::SendToShell { input } && input@ == arg_or_empty(args, "command"@)
    } else if cmd == "stop_all_metrics_streams"@ {
        a == Action::Stop(StreamCategory::Metrics)
    } else if cmd == "stop_live_tail"@ {
        a == Action::Stop(StreamCategory::Logs)
    } else if cmd == "app_start"@ {
        a is AppStart
    } else {
        let op = choose|op: TargetOp| op_name(op) == cmd;
        a matches Action::Target { op: o, namespace, name } && o == op && namespace@ == arg_or_empty(args, "ns"@)
            && name@ == arg_or_empty(args, key_name(op_target_key(op)))
    }
}

/// The keys that an asynchronous command requires, in the order they are
/// read; `None` for a command name that is not known.
pub open spec fn required_keys(cmd: Seq<char>) -> Option<Seq<ArgKey>> {
    if cmd == "get_all_ns"@ {
        Some(seq![])
    } else if cmd == "get_deployments"@ {
        Some(seq![ArgKey::Ns])
    } else if cmd == "get_resource"@ {
        Some(seq![ArgKey::Ns, ArgKey::Kind])
    } else if cmd == "apply_resource"@ {
        Some(seq![ArgKey::Resource])
    } else if cmd == "delete_resource"@ {
        Some(seq![ArgKey::Name, ArgKey::Kind])
    } else if cmd == "get_resource_with_metrics"@ {
        Some(seq![ArgKey::Kind])
    } else if cmd == "send_to_shell"@ {
        Some(seq![ArgKey::Ns, ArgKey::Pod, ArgKey::Command])
    } else if cmd == "stop_all_metrics_streams"@ || cmd == "stop_live_tail"@ || cmd == "app_start"@ {
        Some(seq![])
    } else if exists|op: TargetOp| op_name(op) == cmd {
        let op = choose|op: TargetOp| op_name(op) == cmd;
        Some(seq![ArgKey::Ns, op_target_key(op)])
    } else {
        None
    }
}

/// The whole contract of `route_command`.
pub open spec fn route_post(cmd: Seq<char>, args: Seq<(String, String)>, r: Result<Action, CommandError>) -> bool {
    match required_keys(cmd) {
        None => r == Err::<Action, CommandError>(CommandError::UnknownCommand),
        Some(keys) => match first_missing(args, keys) {
            Some(k) => r == Err::<Action, CommandError>(CommandError::MissingArgument(k)),
            None => r matches Ok(a) && route_ok(cmd, args, a),
        },
    }
}

proof fn lemma_missing2(args: Seq<(String, String)>, a: ArgKey, b: ArgKey)
    ensures
        first_missing(args, seq![a, b]) == if arg(args, key_name(a)) is None {
            Some(a)
        } else if arg(args, key_name(b)) is None {
            Some(b)
        } else {
            None::<ArgKey>
        },
{
    reveal_with_fuel(first_missing, 3);
    assert(seq![a, b].skip(1) =~= seq![b]);
    assert(seq![b].skip(1) =~= Seq::<ArgKey>::empty());
}

proof fn lemma_missing1(args: Seq<(String, String)>, a: ArgKey)
    ensures
        first_missing(args, seq![a]) == if arg(args, key_name(a)) is None { Some(a) } else { None::<ArgKey> },
{
    reveal_with_fuel(first_missing, 2);
    assert(seq![a].skip(1) =~= Seq::<ArgKey>::empty());
}

proof fn lemma_missing3(args: Seq<(String, String)>, a: ArgKey, b: ArgKey, c: ArgKey)
    ensures
        first_missing(args, seq![a, b, c]) == if arg(args, key_name(a)) is None {
            Some(a)
        } else if arg(args, key_name(b)) is None {
            Some(b)
        } else if arg(args, key_name(c)) is None {
            Some(c)
        } else {
            None::<ArgKey>
        },
{
    assert(seq![a, b, c].skip(1) =~= seq![b, c]);
    lemma_missing2(args, b, c);
}

fn require2(args: &Vec<(String, String)>, a: ArgKey, b: ArgKey) -> (r: Result<(String, String), CommandError>)
    ensures
        match r {
            Ok((x, y)) => first_missing(args@, seq![a, b]) is None && arg(args@, key_name(a)) == Some(x@)
                && arg(args@, key_name(b)) == Some(y@),
            Err(e) => first_missing(args@, seq![a, b]) matches Some(k) && e == CommandError::MissingArgument(k),
        },
{
    proof { lemma_missing2(args@, a, b); }
    let x = match require(args, a) {
        Ok(v) => v,
        Err(e) => return Err(e),
    };
    let y = match require(args, b) {
        Ok(v) => v,
        Err(e) => return Err(e),
    };
    Ok((x, y))
}

/// Resolves an asynchronous command into the work it asks for. A command
/// name that is not known, or a required argument that is missing, is an
/// error: it is reported, never silently dropped.
pub fn route_command(env: &CommandEnvelope) -> (r: Result<Action, CommandError>)
    ensures
        route_post(env.command@, env.args@, r),
{
    let cmd = env.command.as_str();
    let args = &env.args;
    proof {
        reveal_with_fuel(first_missing, 2);
    }
    if str_eq(cmd, "get_all_ns") {
        Ok(Action::ListNamespaces)
    } else if str_eq(cmd, "get_deployments") {
        proof { lemma_missing1(args@, ArgKey::Ns); }
        match require(args, ArgKey::Ns) {
            Err(e) => Err(e),
            Ok(ns) => Ok(Action::Fetch(get_resource(ns.as_str(), "deployment", cmd))),
        }
    } else if str_eq(cmd, "get_resource") {
        match require2(args, ArgKey::Ns, ArgKey::Kind) {
            Err(e) => Err(e),
            Ok((ns, kind)) => Ok(Action::Fetch(get_resource(ns.as_str(), kind.as_str(), cmd))),
        }
    } else if str_eq(cmd, "apply_resource") {
        proof { lemma_missing1(args@, ArgKey::Resource); }
        match require(args, ArgKey::Resource) {
            Err(e) => Err(e),
            Ok(resource) => {
                let kind = optional(args, ArgKey::Kind);
                let namespace = get_arg(args, "ns");
                Ok(Action::Apply { resource, kind, namespace })
            },
        }
    } else if str_eq(cmd, "delete_resource") {
        match require2(args, ArgKey::Name, ArgKey::Kind) {
            Err(e) => Err(e),
            Ok((name, kind)) => {
                let namespace = optional(args, ArgKey::Ns);
                Ok(Action::Delete { namespace, name, kind })
            },
        }
    } else if str_eq(cmd, "get_resource_with_metrics") {
        proof { lemma_missing1(args@, ArgKey::Kind); }
        match require(args, ArgKey::Kind) {
            Err(e) => Err(e),
            Ok(kind) => {
                let namespace = optional(args, ArgKey::Ns);
                let lower = to_lower(kind.as_str());
                let kind = trimmed(lower.as_str());
                Ok(Action::WithMetrics { namespace, kind })
            },
        }
    } else if str_eq(cmd, "send_to_shell") {
        proof {
            lemma_missing3(args@, ArgKey::Ns, ArgKey::Pod, ArgKey::Command);
            lemma_missing2(args@, ArgKey::Ns, ArgKey::Pod);
        }
        match require2(args, ArgKey::Ns, ArgKey::Pod) {
            Err(e) => Err(e),
            Ok(_) => match require(args, ArgKey::Command) {
                Err(e) => Err(e),
                Ok(input) => Ok(Action::SendToShell { input }),
            },
        }
    } else if str_eq(cmd, "stop_all_metrics_streams") {
        Ok(Action::Stop(StreamCategory::Metrics))
    } else if str_eq(cmd, "stop_live_tail") {
        Ok(Action::Stop(StreamCategory::Logs))
    } else if str_eq(cmd, "app_start") {
        Ok(Action::AppStart)
    } else {
        match parse_target_op(cmd) {
            None => Err(CommandError::UnknownCommand),
            Some(op) => {
                proof {
                    assert(op_name(op) == cmd@);
                    let c = choose|c: TargetOp| op_name(c) == cmd@;
                    lemma_op_names_distinct(c, op);
                }
                match require2(args, ArgKey::Ns, target_key(op)) {
                    Err(e) => Err(e),
                    Ok((namespace, name)) => Ok(Action::Target { op, namespace, name }),
                }
            },
        }
    }
}

/// The first missing key of two lists of keys is the first list's, if any.
proof fn lemma_missing_concat(args: Seq<(String, String)>, x: Seq<ArgKey>, y: Seq<ArgKey>)
    ensures
        first_missing(args, x + y) == if first_missing(args, x) is Some {
            first_missing(args, x)
        } else {
            first_missing(args, y)
        },
    decreases x.len(),
{
    if x.len() > 0 {
        assert((x + y).skip(1) =~= x.skip(1) + y);
        assert((x + y)[0] == x[0]);
        lemma_missing_concat(args, x.skip(1), y);
    } else {
        assert(x + y =~= y);
    }
}

/// What a synchronous command asks for; its reply is returned to the caller
/// directly.
#[derive(Clone, Debug)]
pub enum SyncAction {
    /// Resolve a deployment's pods through its label selector.
    PodsForDeployment { namespace: String, deployment: String },
    /// Read one deployment.
    Deployment { namespace: String, name: String },
    /// Read one resource's definition.
    ResourceDefinition { namespace: String, name: String, kind: String },
    /// Replace a resource with an edited body.
    EditResource { namespace: String, kind: String, name: String, resource: String },
    /// Reply with this example document.
    Template(String),
    /// List the cluster contexts.
    ClusterContexts,
    /// Switch the current cluster context.
    SetCluster(String),
    /// Report the current cluster context.
    CurrentCluster,
    /// Record that the license agreement was accepted.
    AcceptEula,
    /// Check and store a license key.
    AddLicense(String),
    /// Store a preference.
    SavePreference { key: String, value: String },
    /// Read the preferences with these keys.
    Preferences(Vec<String>),
}

/// The keys that a synchronous command requires, in the order they are
/// read; `None` for a name that is not known.
pub open spec fn sync_required_keys(cmd: Seq<char>) -> Option<Seq<ArgKey>> {
    if cmd == "get_pods_for_deployment"@ || cmd == "get_deployment"@ {
        Some(seq![ArgKey::Ns, ArgKey::Deployment])
    } else if cmd == "get_resource_definition"@ {
        Some(seq![ArgKey::Ns, ArgKey::Name, ArgKey::Kind])
    } else if cmd == "edit_resource"@ {
        Some(seq![ArgKey::Ns, ArgKey::Kind, ArgKey::Name, ArgKey::Resource])
    } else if cmd == "get_resource_template"@ {
        Some(seq![ArgKey::Kind])
    } else if cmd == "set_current_cluster_context"@ {
        Some(seq![ArgKey::Cluster])
    } else if cmd == "add_license"@ {
        Some(seq![ArgKey::License])
    } else if cmd == "save_preference"@ {
        Some(seq![ArgKey::Key, ArgKey::Value])
    } else if cmd == "get_all_cluster_contexts"@ || cmd == "get_current_cluster_context"@
        || cmd == "eula_accepted"@ || cmd == "get_preferences"@ {
        Some(seq![])
    } else {
        None
    }
}

/// The resolution of a synchronous command whose required keys are present.
pub open spec fn sync_ok(cmd: Seq<char>, args: Seq<(String, String)>, a: SyncAction) -> bool {
    if cmd == "get_pods_for_deployment"@ {
        a matches SyncAction::PodsForDeployment { namespace, deployment }
            && namespace@ == arg_or_empty(args, "ns"@) && deployment@ == arg_or_empty(args, "deployment"@)
    } else if cmd == "get_deployment"@ {
        a matches SyncAction::Deployment { namespace, name }
            && namespace@ == arg_or_empty(args, "ns"@) && name@ == arg_or_empty(args, "deployment"@)
    } else if cmd == "get_resource_definition"@ {
        a matches SyncAction::ResourceDefinition { namespace, name, kind } && namespace@ == arg_or_empty(args, "ns"@)
            && name@ == arg_or_empty(args, "name"@) && kind@ == arg_or_empty(args, "kind"@)
    } else if cmd == "edit_resource"@ {
        a matches SyncAction::EditResource { namespace, kind, name, resource }
            && namespace@ == arg_or_empty(args, "ns"@) && kind@ == arg_or_empty(args, "kind"@)
            && name@ == arg_or_empty(args, "name"@) && resource@ == arg_or_empty(args, "resource"@)
    } else if cmd == "get_resource_template"@ {
        a matches SyncAction::Template(t) && t@ == template_spec(lower_of(arg_or_empty(args, "kind"@)))
    } else if cmd == "set_current_cluster_context"@ {
        a matches SyncAction::SetCluster(c) && c@ == arg_or_empty(args, "cluster"@)
    } else if cmd == "add_license"@ {
        a matches SyncAction::AddLicense(l) && l@ == arg_or_empty(args, "license"@)
    } else if cmd == "save_preference"@ {
        a matches SyncAction::SavePreference { key, value } && key@ == arg_or_empty(args, "key"@)
            && value@ == arg_or_empty(args, "value"@)
    } else if cmd == "get_all_cluster_contexts"@ {
        a is ClusterContexts
    } else if cmd == "get_current_cluster_context"@ {
        a is CurrentCluster
    } else if cmd == "eula_accepted"@ {
        a is AcceptEula
    } else {
        a matches SyncAction::Preferences(keys) && keys@.len() == args.len()
            && forall|i: int| 0 <= i < args.len() ==> (#[trigger] keys@[i])@ == args[i].0@
    }
}

/// The whole contract of `route_sync_command`.
pub open spec fn sync_route_post(cmd: Seq<char>, args: Seq<(String, String)>, r: Result<SyncAction, CommandError>) -> bool {
    match sync_required_keys(cmd) {
        None => r == Err::<SyncAction, CommandError>(CommandError::UnknownCommand),
        Some(keys) => match first_missing(args, keys) {
            Some(k) => r == Err::<SyncAction, CommandError>(CommandError::MissingArgument(k)),
            None => r matches Ok(a) && sync_ok(cmd, args, a),
        },
    }
}

/// The keys of the arguments, in order.
fn arg_keys(args: &Vec<(String, String)>) -> (r: Vec<String>)
    ensures
        r@.len() == args@.len(),
        forall|i: int| 0 <= i < args@.len() ==> (#[trigger] r@[i])@ == args@[i].0@,
{
    let mut r: Vec<String> = Vec::new();
    let mut i: usize = 0;
    while i < args.len()
        invariant
            i <= args@.len(),
            r@.len() == i,
            forall|j: int| 0 <= j < i ==> (#[trigger] r@[j])@ == args@[j].0@,
        decreases args@.len() - i,
    {
        r.push(args[i].0.clone());
        i = i + 1;
    }
    r
}

/// Resolves a synchronous command. A name that is not known, or a required
/// argument that is missing, is an error.
pub fn route_sync_command(env: &CommandEnvelope) -> (r: Result<SyncAction, CommandError>)
    ensures
        sync_route_post(env.command@, env.args@, r),
{
    let cmd = env.command.as_str();
    let args = &env.args;
    proof {
        reveal_with_fuel(first_missing, 2);
    }
    if str_eq(cmd, "get_pods_for_deployment") || str_eq(cmd, "get_deployment") {
        match require2(args, ArgKey::Ns, ArgKey::Deployment) {
            Err(e) => Err(e),
            Ok((namespace, deployment)) => if str_eq(cmd, "get_pods_for_deployment") {
                Ok(SyncAction::PodsForDeployment { namespace, deployment })
            } else {
                Ok(SyncAction::Deployment { namespace, name: deployment })
            },
        }
    } else if str_eq(cmd, "get_resource_definition") {
        proof {
            lemma_missing_concat(args@, seq![ArgKey::Ns, ArgKey::Name], seq![ArgKey::Kind]);
            assert(seq![ArgKey::Ns, ArgKey::Name] + seq![ArgKey::Kind] =~= seq![ArgKey::Ns, ArgKey::Name, ArgKey::Kind]);
            lemma_missing1(args@, ArgKey::Kind);
        }
        match require2(args, ArgKey::Ns, ArgKey::Name) {
            Err(e) => Err(e),
            Ok((namespace, name)) => match require(args, ArgKey::Kind) {
                Err(e) => Err(e),
                Ok(kind) => Ok(SyncAction::ResourceDefinition { namespace, name, kind }),
            },
        }
    } else if str_eq(cmd, "edit_resource") {
        proof {
            lemma_missing_concat(args@, seq![ArgKey::Ns, ArgKey::Kind], seq![ArgKey::Name, ArgKey::Resource]);
            assert(seq![ArgKey::Ns, ArgKey::Kind] + seq![ArgKey::Name, ArgKey::Resource] =~= seq![
                ArgKey::Ns,
                ArgKey::Kind,
                ArgKey::Name,
                ArgKey::Resource,
            ]);
        }
        match require2(args, ArgKey::Ns, ArgKey::Kind) {
            Err(e) => Err(e),
            Ok((namespace, kind)) => match require2(args, ArgKey::Name, ArgKey::Resource) {
                Err(e) => Err(e),
                Ok((name, resource)) => Ok(SyncAction::EditResource { namespace, kind, name, resource }),
            },
        }
    } else if str_eq(cmd, "get_resource_template") {
        proof { lemma_missing1(args@, ArgKey::Kind); }
        match require(args, ArgKey::Kind) {
            Err(e) => Err(e),
            Ok(kind) => Ok(SyncAction::Template(String::from_str(resource_template(kind.as_str())))),
        }
    } else if str_eq(cmd, "set_current_cluster_context") {
        proof { lemma_missing1(args@, ArgKey::Cluster); }
        match require(args, ArgKey::Cluster) {
            Err(e) => Err(e),
            Ok(c) => Ok(SyncAction::SetCluster(c)),
        }
    } else if str_eq(cmd, "add_license") {
        proof { lemma_missing1(args@, ArgKey::License); }
        match require(args, ArgKey::License) {
            Err(e) => Err(e),
            Ok(l) => Ok(SyncAction::AddLicense(l)),
        }
    } else if str_eq(cmd, "save_preference") {
        match require2(args, ArgKey::Key, ArgKey::Value) {
            Err(e) => Err(e),
            Ok((key, value)) => Ok(SyncAction::SavePreference { key, value }),
        }
    } else if str_eq(cmd, "get_all_cluster_contexts") {
        Ok(SyncAction::ClusterContexts)
    } else if str_eq(cmd, "get_current_cluster_context") {
        Ok(SyncAction::CurrentCluster)
    } else if str_eq(cmd, "eula_accepted") {
        Ok(SyncAction::AcceptEula)
    } else if str_eq(cmd, "get_preferences") {
        Ok(SyncAction::Preferences(arg_keys(args)))
    } else {
        Err(CommandError::UnknownCommand)
    }
}

} // verus!
