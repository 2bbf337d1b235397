use yaki::kubeconfig::{
    client_source, get_all_ns, get_clusters, get_current_cluster, get_custom_ns_list, kubeconfig_path,
    resource_template, ClientSource, KCluster, KNamespace,
};
use yaki::envelope::{CommandResult, EventHolder, Emission, Payload};
use yaki::selector::{get_pods_for_deployment, label_query, selector_queries};
use yaki::text::{decimal_string, json_quote, str_eq};

fn lines(ls: &[&str]) -> Vec<String> {
    ls.iter().map(|s| s.to_string()).collect()
}

#[test]
fn selector_queries_one_per_label() {
    let sel = vec![("app".to_string(), "foo".to_string()), ("tier".to_string(), "web".to_string())];
    assert_eq!(selector_queries(&sel), vec!["app=foo".to_string(), "tier=web".to_string()]);
    assert_eq!(label_query("k", ""), "k=");
}

#[test]
fn pods_for_selector_are_the_union_not_the_intersection() {
    // cluster: alpha {app: foo}, beta {app: foo, tier: web}, gamma {tier: web}, delta {app: bar}
    let app_foo: Result<Vec<&str>, String> = Ok(vec!["alpha", "beta"]);
    let tier_web: Result<Vec<&str>, String> = Ok(vec!["beta", "gamma"]);
    let pods = get_pods_for_deployment(vec![app_foo, tier_web]).unwrap();
    assert_eq!(pods, vec!["alpha", "beta", "beta", "gamma"]);
    assert!(pods.contains(&"alpha") && pods.contains(&"gamma"));
    assert!(!pods.contains(&"delta"));
    assert!(get_pods_for_deployment::<u8>(vec![]).unwrap().is_empty());
}

#[test]
fn pods_matching_either_label_are_included() {
    // a {app: foo, tier: db}, b {app: bar, tier: web}, c {app: foo, tier: web}, d {app: bar, tier: db}
    let app_foo: Result<Vec<&str>, String> = Ok(vec!["a", "c"]);
    let tier_web: Result<Vec<&str>, String> = Ok(vec!["b", "c"]);
    let pods = get_pods_for_deployment(vec![app_foo, tier_web]).unwrap();
    assert!(pods.contains(&"a") && pods.contains(&"b") && pods.contains(&"c"));
    assert!(!pods.contains(&"d"));
}

#[test]
fn first_failed_label_query_is_reported() {
    let outcomes: Vec<Result<Vec<&str>, String>> =
        vec![Ok(vec!["a"]), Err("forbidden".to_string()), Err("timeout".to_string())];
    assert_eq!(get_pods_for_deployment(outcomes), Err("forbidden".to_string()));
}

#[test]
fn custom_namespaces_skip_blank_lines() {
    let ns = get_custom_ns_list(Some("dev\n  \nprod\n".to_string()));
    let names: Vec<&str> = ns.iter().map(|n| n.name.as_str()).collect();
    assert_eq!(names, vec!["dev", "prod"]);
    assert!(ns.iter().all(|n| n.creation_ts == 0));
    let kept = get_custom_ns_list(Some(" staging ".to_string()));
    assert_eq!(kept[0].name, " staging ");
    assert!(get_custom_ns_list(None).is_empty());
    assert!(get_custom_ns_list(Some(String::new())).is_empty());
    let wide = get_custom_ns_list(Some("\u{3000}\u{a0}\nqa".to_string()));
    assert_eq!(wide.len(), 1);
    assert_eq!(wide[0].name, "qa");
}

#[test]
fn current_cluster_from_first_context_line() {
    let c = get_current_cluster(&lines(&["apiVersion: v1", "current-context: prod", "current-context: dev"]));
    assert_eq!(c.name, "prod");
    assert!(c.current);
    let none = get_current_cluster(&lines(&["apiVersion: v1", " current-context: x"]));
    assert_eq!(none.name, "");
    assert!(!none.current);
}

#[test]
fn current_cluster_removes_every_occurrence_of_the_prefix() {
    let c = get_current_cluster(&lines(&["current-context: acurrent-context: b"]));
    assert_eq!(c.name, "ab");
}

#[test]
fn clusters_from_cluster_lines() {
    let current = KCluster { name: " prod".to_string(), current: true };
    let cs = get_clusters(
        &lines(&["clusters:", "- cluster:", "    server: x", "  cluster: prod", "cluster: dev", "name: cluster: no"]),
        &current,
    )
    .unwrap();
    let got: Vec<(&str, bool)> = cs.iter().map(|c| (c.name.as_str(), c.current)).collect();
    assert_eq!(got, vec![(" prod", true), (" dev", false)]);
}

#[test]
fn templates_match_kind_in_any_case() {
    assert!(resource_template("Deployment").contains("kind: Deployment"));
    assert!(resource_template("REPLICASET").contains("kind: ReplicaSet"));
    assert!(resource_template("namespace").contains("kind: Namespace"));
    assert!(resource_template("ConfigMap").contains("kind: ConfigMap"));
    assert!(resource_template("service").contains("kind: Service"));
    assert_eq!(resource_template("secret"), "");
}

#[test]
fn namespace_list_as_json() {
    match get_all_ns("get_all_ns", Ok(vec!["default".to_string(), "kube-system".to_string()])) {
        Emission::CommandResult(c) => {
            assert_eq!(c.command, "get_all_ns");
            assert_eq!(c.data, "[{\"name\":\"default\",\"creation_ts\":0},{\"name\":\"kube-system\",\"creation_ts\":0}]");
        }
        other => panic!("unexpected {:?}", other),
    }
    assert!(matches!(get_all_ns("get_all_ns", Err("denied".to_string())), Emission::Error(c) if c.data == "denied"));
}

#[test]
fn namespace_json_signed_time() {
    let n = KNamespace { name: "x".to_string(), creation_ts: -12 };
    assert_eq!(n.to_json(), "{\"name\":\"x\",\"creation_ts\":-12}");
    let m = KNamespace { name: "y".to_string(), creation_ts: i64::MIN };
    assert_eq!(m.to_json(), "{\"name\":\"y\",\"creation_ts\":-9223372036854775808}");
    let e = KNamespace::new();
    assert_eq!(e.to_json(), "{\"name\":\"\",\"creation_ts\":0}");
}

#[test]
fn kubeconfig_path_per_platform() {
    assert_eq!(kubeconfig_path("/home/u", false), "/home/u/.kube/config");
    assert_eq!(kubeconfig_path("/home/u/", false), "/home/u/.kube/config");
    assert_eq!(kubeconfig_path("C:\\Users\\u", true), "C:\\Users\\u\\.kube\\config");
}

#[test]
fn client_source_by_cluster_name() {
    assert!(matches!(client_source(""), ClientSource::Inferred));
    assert!(matches!(client_source("prod"), ClientSource::Context(c) if c == "prod"));
}

#[test]
fn decimal_and_json_quoting() {
    assert_eq!(decimal_string(0), "0");
    assert_eq!(decimal_string(907), "907");
    assert_eq!(decimal_string(u128::MAX), "340282366920938463463374607431768211455");
    assert_eq!(json_quote("he said \"hi\""), "\"he said \\\"hi\\\"\"");
    assert_eq!(json_quote("\u{1}\t\u{7f}é"), "\"\\u0001\\t\u{7f}é\"");
    assert!(str_eq("abc", "abc"));
    assert!(!str_eq("abc", "abd"));
}

#[test]
fn empty_envelopes() {
    let c = CommandResult::new();
    assert_eq!((c.command.as_str(), c.data.as_str()), ("", ""));
    let e = EventHolder::new();
    assert_eq!((e.event.as_str(), e.data.as_str()), ("", ""));
    let p = Payload::new();
    assert_eq!((p.message.as_str(), p.metadata.as_str()), ("", ""));
}
