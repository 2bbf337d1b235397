use yaki::command::{route_command, route_sync_command, Action, ArgKey, CommandEnvelope, CommandError, SyncAction, TargetOp, get_arg};
use yaki::envelope::{edit_reply, sync_reply, mutation_reply, outcome_emission, outcome_emissions, restart_deployment, startup_signals, Emission};
use yaki::kinds::{get_resource, parse_kind, ListTarget, ResourceKind};
use yaki::registry::StreamCategory;

fn env(command: &str, args: &[(&str, &str)]) -> CommandEnvelope {
    CommandEnvelope {
        command: command.to_string(),
        args: args.iter().map(|(k, v)| (k.to_string(), v.to_string())).collect(),
    }
}

#[test]
fn pod_kind_makes_one_namespaced_list_call() {
    let reqs = get_resource("default", "pod", "get_resource");
    assert_eq!(reqs.len(), 1);
    assert_eq!(reqs[0].target, ListTarget::Pods);
    assert_eq!(reqs[0].namespace.as_deref(), Some("default"));
    assert_eq!(reqs[0].command, "get_resource");
}

#[test]
fn each_simple_kind_makes_exactly_one_call() {
    for kind in ["deployment", "namespace", "pod", "cronjob", "service", "daemonset", "persistentvolume", "statefulset", "replicaset"] {
        let reqs = get_resource("ns1", kind, "get_resource");
        assert_eq!(reqs.len(), 1, "{}", kind);
        assert_eq!(reqs[0].command, "get_resource");
    }
}

#[test]
fn node_kind_lists_nodes_and_node_metrics_unscoped() {
    let reqs = get_resource("default", "node", "cmd");
    assert_eq!(reqs.len(), 2);
    assert_eq!(reqs[0].target, ListTarget::Nodes);
    assert_eq!(reqs[1].target, ListTarget::NodeMetrics);
    assert!(reqs[0].namespace.is_none() && reqs[1].namespace.is_none());
    assert!(reqs.iter().all(|r| r.command == "cmd"));
}

#[test]
fn configmap_kind_lists_config_maps_and_secrets() {
    let reqs = get_resource("kube-system", "configmap", "cmd");
    assert_eq!(reqs.len(), 2);
    assert_eq!(reqs[0].target, ListTarget::ConfigMaps);
    assert_eq!(reqs[1].target, ListTarget::Secrets);
    assert_eq!(reqs[1].namespace.as_deref(), Some("kube-system"));
}

#[test]
fn unknown_kind_makes_no_call() {
    assert!(get_resource("default", "widget", "cmd").is_empty());
    assert!(get_resource("default", "Pod", "cmd").is_empty());
    assert!(get_resource("default", "", "cmd").is_empty());
}

#[test]
fn parse_kind_is_exact() {
    assert_eq!(parse_kind("statefulset"), Some(ResourceKind::StatefulSet));
    assert_eq!(parse_kind("node"), Some(ResourceKind::Node));
    assert_eq!(parse_kind("nodes"), None);
}

#[test]
fn get_resource_scenario_yields_one_result_envelope() {
    let action = route_command(&env("get_resource", &[("ns", "default"), ("kind", "pod")])).unwrap();
    let reqs = match action {
        Action::Fetch(reqs) => reqs,
        other => panic!("unexpected {:?}", other),
    };
    assert_eq!(reqs.len(), 1);
    let listed = "[{\"name\":\"a\"},{\"name\":\"b\"},{\"name\":\"c\"}]".to_string();
    let emissions = outcome_emissions(&reqs[0].command, vec![Ok(listed.clone())]);
    assert_eq!(emissions.len(), 1);
    match &emissions[0] {
        Emission::CommandResult(c) => {
            assert_eq!(c.command, "get_resource");
            assert_eq!(c.data, listed);
        }
        other => panic!("unexpected {:?}", other),
    }
}

#[test]
fn apply_with_invalid_body_yields_one_error_envelope() {
    let action = route_command(&env("apply_resource", &[("kind", ""), ("resource", "<invalid>")])).unwrap();
    match &action {
        Action::Apply { resource, kind, namespace } => {
            assert_eq!(resource, "<invalid>");
            assert_eq!(kind, "");
            assert!(namespace.is_none());
        }
        other => panic!("unexpected {:?}", other),
    }
    let reply = mutation_reply("apply_resource", Err("malformed body".to_string()));
    let all = vec![reply];
    assert_eq!(all.iter().filter(|e| matches!(e, Emission::Error(_))).count(), 1);
    assert_eq!(all.iter().filter(|e| matches!(e, Emission::CommandResult(_))).count(), 0);
    match &all[0] {
        Emission::Error(c) => {
            assert_eq!(c.command, "apply_resource");
            assert_eq!(c.data, "malformed body");
        }
        _ => unreachable!(),
    }
}

#[test]
fn failed_sibling_fetch_does_not_hide_the_other() {
    let es = outcome_emissions("get_resource", vec![Ok("[]".to_string()), Err("forbidden".to_string())]);
    assert_eq!(es.len(), 2);
    assert!(matches!(&es[0], Emission::CommandResult(c) if c.command == "get_resource" && c.data == "[]"));
    assert!(matches!(&es[1], Emission::Error(c) if c.command == "get_resource" && c.data == "forbidden"));
}

#[test]
fn outcome_emission_routes_by_outcome() {
    assert!(matches!(outcome_emission("c", Ok("d".to_string())), Emission::CommandResult(r) if r.command == "c" && r.data == "d"));
    assert!(matches!(outcome_emission("c", Err("e".to_string())), Emission::Error(r) if r.command == "c" && r.data == "e"));
}

#[test]
fn restart_reports_success_text() {
    assert!(matches!(restart_deployment("restart_deployments", Ok(())), Emission::CommandResult(r) if r.data == "success"));
    assert!(matches!(restart_deployment("restart_deployments", Err("nope".to_string())), Emission::Error(r) if r.data == "nope"));
}

#[test]
fn unknown_command_is_an_error() {
    assert_eq!(route_command(&env("frobnicate", &[])).unwrap_err(), CommandError::UnknownCommand);
    assert_eq!(route_sync_command(&env("frobnicate", &[])).unwrap_err(), CommandError::UnknownCommand);
}

#[test]
fn missing_arguments_are_reported_in_read_order() {
    assert_eq!(route_command(&env("get_resource", &[("kind", "pod")])).unwrap_err(), CommandError::MissingArgument(ArgKey::Ns));
    assert_eq!(route_command(&env("get_resource", &[("ns", "x")])).unwrap_err(), CommandError::MissingArgument(ArgKey::Kind));
    assert_eq!(route_command(&env("apply_resource", &[("kind", "pod")])).unwrap_err(), CommandError::MissingArgument(ArgKey::Resource));
    assert_eq!(route_command(&env("tail_logs_for_pod", &[("ns", "x")])).unwrap_err(), CommandError::MissingArgument(ArgKey::Pod));
    assert_eq!(
        route_sync_command(&env("edit_resource", &[("ns", "x"), ("kind", "pod"), ("resource", "r")])).unwrap_err(),
        CommandError::MissingArgument(ArgKey::Name)
    );
}

#[test]
fn stream_commands_resolve_to_targets() {
    match route_command(&env("stream_metrics_for_pod", &[("ns", "default"), ("pod", "web-1")])).unwrap() {
        Action::Target { op, namespace, name } => {
            assert_eq!(op, TargetOp::StreamPodMetrics);
            assert_eq!(namespace, "default");
            assert_eq!(name, "web-1");
            assert_eq!(yaki::command::op_category(op), Some(StreamCategory::Metrics));
        }
        other => panic!("unexpected {:?}", other),
    }
    match route_command(&env("restart_deployments", &[("ns", "n"), ("deployment", "api")])).unwrap() {
        Action::Target { op, name, .. } => {
            assert_eq!(op, TargetOp::RestartDeployment);
            assert_eq!(name, "api");
            assert_eq!(yaki::command::op_category(op), None);
        }
        other => panic!("unexpected {:?}", other),
    }
}

#[test]
fn stop_commands_name_their_category() {
    assert!(matches!(route_command(&env("stop_all_metrics_streams", &[])).unwrap(), Action::Stop(StreamCategory::Metrics)));
    assert!(matches!(route_command(&env("stop_live_tail", &[])).unwrap(), Action::Stop(StreamCategory::Logs)));
}

#[test]
fn delete_defaults_namespace_to_empty() {
    match route_command(&env("delete_resource", &[("name", "x"), ("kind", "persistentvolume")])).unwrap() {
        Action::Delete { namespace, name, kind } => {
            assert_eq!(namespace, "");
            assert_eq!(name, "x");
            assert_eq!(kind, "persistentvolume");
        }
        other => panic!("unexpected {:?}", other),
    }
}

#[test]
fn resource_with_metrics_kind_is_lowered_and_trimmed() {
    match route_command(&env("get_resource_with_metrics", &[("kind", "  NoDe ")])).unwrap() {
        Action::WithMetrics { namespace, kind } => {
            assert_eq!(namespace, "");
            assert_eq!(kind, "node");
        }
        other => panic!("unexpected {:?}", other),
    }
}

#[test]
fn send_to_shell_carries_input() {
    match route_command(&env("send_to_shell", &[("ns", "n"), ("pod", "p"), ("command", "ls -l")])).unwrap() {
        Action::SendToShell { input } => assert_eq!(input, "ls -l"),
        other => panic!("unexpected {:?}", other),
    }
}

#[test]
fn repeated_argument_keeps_last_value() {
    let args = vec![("ns".to_string(), "a".to_string()), ("ns".to_string(), "b".to_string())];
    assert_eq!(get_arg(&args, "ns").as_deref(), Some("b"));
    assert_eq!(get_arg(&args, "pod"), None);
}

#[test]
fn sync_template_is_case_insensitive() {
    match route_sync_command(&env("get_resource_template", &[("kind", "Pod")])).unwrap() {
        SyncAction::Template(t) => assert!(t.contains("kind: Pod")),
        other => panic!("unexpected {:?}", other),
    }
    match route_sync_command(&env("get_resource_template", &[("kind", "widget")])).unwrap() {
        SyncAction::Template(t) => assert_eq!(t, ""),
        other => panic!("unexpected {:?}", other),
    }
}

#[test]
fn sync_preferences_lists_argument_keys() {
    match route_sync_command(&env("get_preferences", &[("theme", ""), ("ns", "")])).unwrap() {
        SyncAction::Preferences(keys) => assert_eq!(keys, vec!["theme".to_string(), "ns".to_string()]),
        other => panic!("unexpected {:?}", other),
    }
}

#[test]
fn sync_edit_resource_reads_all_four() {
    match route_sync_command(&env("edit_resource", &[("ns", "n"), ("kind", "pod"), ("name", "p"), ("resource", "body")])).unwrap() {
        SyncAction::EditResource { namespace, kind, name, resource } => {
            assert_eq!((namespace.as_str(), kind.as_str(), name.as_str(), resource.as_str()), ("n", "pod", "p", "body"));
        }
        other => panic!("unexpected {:?}", other),
    }
}

#[test]
fn startup_signals_follow_findings() {
    assert_eq!(startup_signals(true, false, true), vec!["cluster_found", "no_license_found", "eula_accepted"]);
    assert_eq!(startup_signals(false, true, false), vec!["no_cluster_found", "valid_license_found", "eula_not_accepted"]);
}

#[test]
fn command_errors_have_messages() {
    assert_eq!(CommandError::UnknownCommand.message(), "unknown command");
    assert_eq!(CommandError::MissingArgument(ArgKey::Deployment).message(), "missing argument: deployment");
}

#[test]
fn replicaset_kind_lists_replica_sets() {
    let reqs = get_resource("web", "replicaset", "get_resource");
    assert_eq!(reqs.len(), 1);
    assert_eq!(reqs[0].target, ListTarget::ReplicaSets);
    assert_eq!(reqs[0].namespace.as_deref(), Some("web"));
}

#[test]
fn sync_replies_carry_data_or_an_error_event() {
    let (res, err) = sync_reply("get_deployment", Ok("{}".to_string()));
    assert_eq!((res.command.as_str(), res.data.as_str()), ("get_deployment", "{}"));
    assert!(err.is_none());
    let (res, err) = sync_reply("get_deployment", Err("Deployment not found".to_string()));
    assert_eq!(res.data, "");
    assert!(matches!(err, Some(Emission::Error(c)) if c.command == "get_deployment" && c.data == "Deployment not found"));
}

#[test]
fn edit_reply_reports_success_or_failure() {
    let (res, err) = edit_reply("edit_resource", true);
    assert_eq!(res.data, "Success");
    assert!(err.is_none());
    let (res, err) = edit_reply("edit_resource", false);
    assert_eq!(res.data, "");
    assert!(matches!(err, Some(Emission::Error(c)) if c.data == "Failed to edit resource"));
}
