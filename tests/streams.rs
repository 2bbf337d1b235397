use yaki::envelope::Emission;
use yaki::poller::{
    get_logs_for_pod, get_metrics_for_deployment, log_end_step, log_request, log_tail_step, metrics_round, pod_metric, metrics_to_json,
    metrics_tick, setup_step, teardown, Metric, PollerState, METRICS_INTERVAL_MS,
};
use yaki::registry::{StreamCategory, TaskRegistry};

fn usage(cpu: &str, mem: &str) -> Result<(String, String), String> {
    Ok((cpu.to_string(), mem.to_string()))
}

#[test]
fn stopping_a_category_signals_every_stream_in_it() {
    let mut reg: TaskRegistry<u32> = TaskRegistry::new();
    reg.start(StreamCategory::Metrics, 1);
    reg.start(StreamCategory::Metrics, 2);
    reg.start(StreamCategory::Logs, 3);
    assert_eq!(reg.stop(StreamCategory::Metrics), vec![1, 2]);
    assert_eq!(reg.count(StreamCategory::Metrics), 0);
    assert_eq!(reg.count(StreamCategory::Logs), 1);
    assert!(reg.stop(StreamCategory::Metrics).is_empty());
}

#[test]
fn stop_all_forms_leave_shell_alone() {
    let mut reg: TaskRegistry<&str> = TaskRegistry::new();
    reg.start(StreamCategory::Shell, "s");
    reg.start(StreamCategory::Logs, "l");
    reg.start(StreamCategory::Metrics, "m");
    assert_eq!(reg.stop_all_logs(), vec!["l"]);
    assert_eq!(reg.stop_all_metrics(), vec!["m"]);
    assert_eq!(reg.shell_handles(), &vec!["s"]);
    assert_eq!(reg.count(StreamCategory::Shell), 1);
}

#[test]
fn metric_serialises_fields_in_order() {
    let m = Metric { cpu: "10m".to_string(), memory: "20Mi".to_string(), ts: 1700000000000, pod: "web-1".to_string() };
    assert_eq!(m.to_json(), "{\"cpu\":\"10m\",\"memory\":\"20Mi\",\"ts\":1700000000000,\"pod\":\"web-1\"}");
}

#[test]
fn metric_json_escapes_strings() {
    let m = Metric { cpu: "a\"b".to_string(), memory: "x\\y".to_string(), ts: 0, pod: "p\n".to_string() };
    assert_eq!(m.to_json(), "{\"cpu\":\"a\\\"b\",\"memory\":\"x\\\\y\",\"ts\":0,\"pod\":\"p\\n\"}");
}

#[test]
fn empty_metric_is_blank() {
    let m = Metric::new();
    assert_eq!(m.to_json(), "{\"cpu\":\"\",\"memory\":\"\",\"ts\":0,\"pod\":\"\"}");
}

#[test]
fn metrics_array_joins_samples() {
    let a = Metric { cpu: "1".to_string(), memory: "2".to_string(), ts: 3, pod: "a".to_string() };
    let b = Metric { cpu: "4".to_string(), memory: "5".to_string(), ts: 6, pod: "b".to_string() };
    assert_eq!(metrics_to_json(&vec![]), "[]");
    assert_eq!(
        metrics_to_json(&vec![a, b]),
        "[{\"cpu\":\"1\",\"memory\":\"2\",\"ts\":3,\"pod\":\"a\"},{\"cpu\":\"4\",\"memory\":\"5\",\"ts\":6,\"pod\":\"b\"}]"
    );
}

#[test]
fn metrics_tick_emits_then_sleeps() {
    let step = metrics_tick(PollerState::Running, "stream_metrics_for_pod", "web-1", usage("5m", "10Mi"), 42, None);
    assert_eq!(step.state, PollerState::Running);
    assert_eq!(step.sleep_ms, Some(METRICS_INTERVAL_MS));
    assert_eq!(METRICS_INTERVAL_MS, 5000);
    assert_eq!(step.emitted.len(), 1);
    match &step.emitted[0] {
        Emission::Metrics(p) => {
            assert_eq!(p.metadata, "web-1");
            assert_eq!(p.message, "{\"cpu\":\"5m\",\"memory\":\"10Mi\",\"ts\":42,\"pod\":\"web-1\"}");
        }
        other => panic!("unexpected {:?}", other),
    }
}

#[test]
fn stop_signal_ends_metrics_stream_at_next_tick() {
    let step = metrics_tick(PollerState::Running, "c", "web-1", usage("1m", "1Mi"), 1, Some("STOP".to_string()));
    assert_eq!(step.state, PollerState::Cancelled);
    assert_eq!(step.sleep_ms, None);
    assert!(step.emitted.is_empty());
    let later = metrics_tick(step.state, "c", "web-1", usage("2m", "2Mi"), 2, None);
    assert!(later.emitted.is_empty());
    assert_eq!(later.state, PollerState::Cancelled);
    assert_eq!(teardown(later.state), PollerState::Terminated);
}

#[test]
fn any_received_value_counts_as_stop() {
    let step = metrics_tick(PollerState::Running, "c", "p", usage("1m", "1Mi"), 1, Some("ERR".to_string()));
    assert_eq!(step.state, PollerState::Cancelled);
    assert!(step.emitted.is_empty());
    let failed_fetch = metrics_tick(PollerState::Running, "c", "p", Err("gone".to_string()), 1, Some("STOP".to_string()));
    assert_eq!(failed_fetch.state, PollerState::Cancelled);
    assert!(failed_fetch.emitted.is_empty());
    let step = log_tail_step(PollerState::Running, "p", "line".to_string(), Some(String::new()));
    assert_eq!(step.state, PollerState::Cancelled);
}

#[test]
fn metrics_stream_scenario_two_ticks_then_stop() {
    let mut state = setup_step(PollerState::Starting, "stream_metrics_for_pod", Ok(())).state;
    assert_eq!(state, PollerState::Running);
    let mut events = Vec::new();
    for ts in [1_000u128, 6_000u128] {
        let step = metrics_tick(state, "stream_metrics_for_pod", "web-1", usage("3m", "7Mi"), ts, None);
        state = step.state;
        assert_eq!(step.sleep_ms, Some(5000));
        events.extend(step.emitted);
    }
    let stamps: Vec<String> = events
        .iter()
        .map(|e| match e {
            Emission::Metrics(p) if p.metadata == "web-1" => p.message.clone(),
            other => panic!("unexpected {:?}", other),
        })
        .collect();
    assert_eq!(stamps.len(), 2);
    assert!(stamps[0].contains("\"ts\":1000,"));
    assert!(stamps[1].contains("\"ts\":6000,"));
    let last = metrics_tick(state, "stream_metrics_for_pod", "web-1", usage("3m", "7Mi"), 11_000, Some("STOP".to_string()));
    assert_eq!(last.state, PollerState::Cancelled);
    assert!(last.emitted.is_empty());
    assert_eq!(last.sleep_ms, None);
    let after = metrics_tick(last.state, "stream_metrics_for_pod", "web-1", usage("3m", "7Mi"), 16_000, None);
    assert!(after.emitted.is_empty());
}

#[test]
fn failed_fetch_fails_the_stream_with_an_error_event() {
    let step = metrics_tick(PollerState::Running, "stream_metrics_for_pod", "p", Err("gone".to_string()), 1, None);
    assert_eq!(step.state, PollerState::Failed);
    assert!(matches!(&step.emitted[0], Emission::Error(c) if c.command == "stream_metrics_for_pod" && c.data == "gone"));
    let setup = setup_step(PollerState::Starting, "tail_logs_for_pod", Err("no cluster".to_string()));
    assert_eq!(setup.state, PollerState::Failed);
    assert_eq!(setup.emitted.len(), 1);
}

#[test]
fn metrics_round_samples_each_pod_unless_stopped() {
    let samples = vec![("a".to_string(), usage("1m", "2Mi")), ("b".to_string(), usage("3m", "4Mi"))];
    let step = metrics_round(PollerState::Running, "c", &samples, 7, None);
    assert_eq!(step.state, PollerState::Running);
    assert_eq!(step.sleep_ms, Some(5000));
    assert_eq!(step.emitted.len(), 2);
    assert!(matches!(&step.emitted[1], Emission::Metrics(p) if p.metadata == "b"
        && p.message == "{\"cpu\":\"3m\",\"memory\":\"4Mi\",\"ts\":7,\"pod\":\"b\"}"));
    let stopped = metrics_round(PollerState::Running, "c", &samples, 8, Some("STOP".to_string()));
    assert_eq!(stopped.state, PollerState::Cancelled);
    assert!(stopped.emitted.is_empty());
    let failing = vec![("a".to_string(), usage("1m", "2Mi")), ("b".to_string(), Err("gone".to_string()))];
    let failed = metrics_round(PollerState::Running, "c", &failing, 9, None);
    assert_eq!(failed.state, PollerState::Failed);
    assert_eq!(failed.emitted.len(), 2);
    assert!(matches!(&failed.emitted[1], Emission::Error(c) if c.data == "gone"));
}

#[test]
fn log_tail_stops_before_emitting_pending_line() {
    let step = log_tail_step(PollerState::Running, "p", "hello".to_string(), None);
    assert_eq!(step.state, PollerState::Running);
    assert!(matches!(&step.emitted[0], Emission::Logs(pl) if pl.message == "hello" && pl.metadata == "p"));
    let step = log_tail_step(PollerState::Running, "p", "pending".to_string(), Some("STOP".to_string()));
    assert_eq!(step.state, PollerState::Cancelled);
    assert!(step.emitted.is_empty());
    let later = log_tail_step(step.state, "p", "more".to_string(), None);
    assert!(later.emitted.is_empty());
}

#[test]
fn log_stream_end_completes_or_fails() {
    assert_eq!(log_end_step(PollerState::Running, "c", Ok(())).state, PollerState::Completed);
    let failed = log_end_step(PollerState::Running, "c", Err("reset".to_string()));
    assert_eq!(failed.state, PollerState::Failed);
    assert!(matches!(&failed.emitted[0], Emission::Error(c) if c.data == "reset"));
    assert_eq!(teardown(PollerState::Running), PollerState::Running);
}

#[test]
fn log_requests_follow_or_read_trailing_hundred() {
    let tail = log_request(true);
    assert!(tail.follow);
    assert_eq!(tail.tail_lines, 1);
    let fetch = log_request(false);
    assert!(!fetch.follow);
    assert_eq!(fetch.tail_lines, 100);
}

#[test]
fn log_fetch_emits_one_event_per_line() {
    let es = get_logs_for_pod("p", vec!["a".to_string(), "b".to_string()]);
    assert_eq!(es.len(), 2);
    assert!(matches!(&es[1], Emission::Logs(pl) if pl.message == "b" && pl.metadata == "p"));
}

#[test]
fn deployment_metrics_reply_reports_first_failure() {
    let ok = Metric { cpu: "1m".to_string(), memory: "1Mi".to_string(), ts: 9, pod: "a".to_string() };
    let r = get_metrics_for_deployment("get_metrics_for_deployment", vec![Ok(ok.clone())]);
    assert!(matches!(&r, Emission::CommandResult(c) if c.data == "[{\"cpu\":\"1m\",\"memory\":\"1Mi\",\"ts\":9,\"pod\":\"a\"}]"));
    let r = get_metrics_for_deployment("c", vec![Ok(ok), Err("first".to_string()), Err("second".to_string())]);
    assert!(matches!(&r, Emission::Error(c) if c.data == "first" && c.command == "c"));
    let r = get_metrics_for_deployment("c", vec![]);
    assert!(matches!(&r, Emission::CommandResult(c) if c.data == "[]"));
}

#[test]
fn pod_metric_assembles_a_sample() {
    let m = pod_metric("web-1", usage("4m", "8Mi"), 12).unwrap();
    assert_eq!((m.cpu.as_str(), m.memory.as_str(), m.ts, m.pod.as_str()), ("4m", "8Mi", 12, "web-1"));
    assert_eq!(pod_metric("web-1", Err("gone".to_string()), 12).unwrap_err(), "gone");
}
