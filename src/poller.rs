use vstd::prelude::*;
use crate::envelope::{CommandResult, Emission, Payload};
use crate::text::{decimal, decimal_string, joined, json_quote, json_quoted};

verus! {

/// Milliseconds that the metrics poller sleeps between two ticks.
pub const METRICS_INTERVAL_MS: u64 = 5000;

/// Trailing lines that a one-shot log fetch reads.
pub const LOG_FETCH_TAIL_LINES: u64 = 100;

/// Trailing lines that a log tail starts from.
pub const LOG_TAIL_LINES: u64 = 1;

/// One CPU/memory sample of a pod, stamped with epoch milliseconds.
#[derive(Clone, Debug)]
pub struct Metric {
    pub cpu: String,
    pub memory: String,
    pub ts: u128,
    pub pod: String,
}

/// The JSON object for a sample, fields in declaration order.
pub open spec fn metric_json_spec(cpu: Seq<char>, memory: Seq<char>, ts: nat, pod: Seq<char>) -> Seq<char> {
    "{\"cpu\":"@ + json_quoted(cpu) + ",\"memory\":"@ + json_quoted(memory) + ",\"ts\":"@ + decimal(ts)
        + ",\"pod\":"@ + json_quoted(pod) + "}"@
}

/// The JSON text of a sample.
pub open spec fn metric_view_json(m: Metric) -> Seq<char> {
    metric_json_spec(m.cpu@, m.memory@, m.ts as nat, m.pod@)
}

impl Metric {
    /// An empty sample: no pod, empty usage, time zero.
    pub fn new() -> (r: Metric)
        ensures
            r.cpu@.len() == 0,
            r.memory@.len() == 0,
            r.ts == 0,
            r.pod@.len() == 0,
    {
        Metric { cpu: String::new(), memory: String::new(), ts: 0, pod: String::new() }
    }

    /// The sample as a JSON object.
    pub fn to_json(&self) -> (r: String)
        ensures
            r@ == metric_view_json(*self),
    {
        let mut s = String::from_str("{\"cpu\":");
        let cpu = json_quote(self.cpu.as_str());
        s.append(cpu.as_str());
        s.append(",\"memory\":");
        let memory = json_quote(self.memory.as_str());
        s.append(memory.as_str());
        s.append(",\"ts\":");
        let ts = decimal_string(self.ts);
        s.append(ts.as_str());
        s.append(",\"pod\":");
        let pod = json_quote(self.pod.as_str());
        s.append(pod.as_str());
        s.append("}");
        s
    }
}

/// The JSON array of a list of samples.
pub open spec fn metrics_json_spec(ms: Seq<Metric>) -> Seq<char> {
    "["@ + joined(ms.map_values(|m: Metric| metric_view_json(m))) + "]"@
}

/// The samples as a JSON array.
pub fn metrics_to_json(ms: &Vec<Metric>) -> (r: String)
    ensures
        r@ == metrics_json_spec(ms@),
{
    let mut body = String::new();
    let mut i: usize = 0;
    while i < ms.len()
        invariant
            i <= ms@.len(),
            body@ == joined(ms@.subrange(0, i as int).map_values(|m: Metric| metric_view_json(m))),
        decreases ms@.len() - i,
    {
        let item = ms[i].to_json();
        let ghost prev = ms@.subrange(0, i as int).map_values(|m: Metric| metric_view_json(m));
        let ghost next = ms@.subrange(0, i + 1).map_values(|m: Metric| metric_view_json(m));
        assert(next.drop_last() =~= prev);
        if i > 0 {
            body.append(",");
        }
        body.append(item.as_str());
        i = i + 1;
    }
    assert(ms@.subrange(0, ms@.len() as int) =~= ms@);
    let mut r = String::from_str("[");
    r.append(body.as_str());
    r.append("]");
    r
}

/// The life cycle shared by every stream.
#[derive(PartialEq, Eq, Structural, Clone, Copy, Debug)]
pub enum PollerState {
    Starting,
    Running,
    Cancelled,
    Completed,
    Failed,
    Terminated,
}

/// What one step of a stream decided: its next state, what it emitted, and
/// how long to sleep before the next step (`None`: do not wait on a timer).
#[derive(Clone, Debug)]
pub struct Step {
    pub state: PollerState,
    pub emitted: Vec<Emission>,
    pub sleep_ms: Option<u64>,
}

/// `e` is the error event of stream `command` with text `m`.
pub open spec fn is_error_event(e: Emission, command: Seq<char>, m: Seq<char>) -> bool {
    e matches Emission::Error(c) && c.command@ == command && c.data@ == m
}

/// `e` is a `metrics` event for `pod` carrying sample `json`.
pub open spec fn is_metrics_event(e: Emission, pod: Seq<char>, json: Seq<char>) -> bool {
    e matches Emission::Metrics(p) && p.metadata@ == pod && p.message@ == json
}

/// `e` is a `logs` event for `pod` carrying `line`.
pub open spec fn is_log_event(e: Emission, pod: Seq<char>, line: Seq<char>) -> bool {
    e matches Emission::Logs(p) && p.metadata@ == pod && p.message@ == line
}

fn error_event(command: &str, m: String) -> (r: Emission)
    ensures
        is_error_event(r, command@, m@),
{
    Emission::Error(CommandResult { command: String::from_str(command), data: m })
}

/// The outcome of a stream's setup (client, first request): a stream that
/// could not start fails with an error event.
pub open spec fn setup_post(state: PollerState, command: Seq<char>, setup: Result<(), Seq<char>>, r: Step) -> bool {
    &&& r.sleep_ms is None
    &&& if state != PollerState::Starting {
        r.state == state && r.emitted@.len() == 0
    } else {
        match setup {
            Ok(_) => r.state == PollerState::Running && r.emitted@.len() == 0,
            Err(m) => r.state == PollerState::Failed && r.emitted@.len() == 1
                && is_error_event(r.emitted@[0], command, m),
        }
    }
}

/// Moves a starting stream to running, or to failed if its setup failed.
pub fn setup_step(state: PollerState, command: &str, setup: Result<(), String>) -> (r: Step)
    ensures
        setup_post(state, command@, match setup { Ok(u) => Ok(u), Err(m) => Err(m@) }, r),
{
    if state != PollerState::Starting {
        return Step { state, emitted: Vec::new(), sleep_ms: None };
    }
    match setup {
        Ok(_) => Step { state: PollerState::Running, emitted: Vec::new(), sleep_ms: None },
        Err(m) => {
            let e = error_event(command, m);
            let mut emitted: Vec<Emission> = Vec::new();
            emitted.push(e);
            Step { state: PollerState::Failed, emitted, sleep_ms: None }
        },
    }
}

/// One tick of the metrics poller, given whether anything was waiting on its
/// cancellation channel at the top of the tick, what it fetched, and the
/// time. A stop seen at the top ends the stream before any sample.
pub open spec fn metrics_tick_post(
    state: PollerState,
    command: Seq<char>,
    pod: Seq<char>,
    usage: Result<(Seq<char>, Seq<char>), Seq<char>>,
    ts: nat,
    stop_signal: bool,
    r: Step,
) -> bool {
    if state != PollerState::Running {
        r.state == state && r.emitted@.len() == 0 && r.sleep_ms is None
    } else if stop_signal {
        r.state == PollerState::Cancelled && r.emitted@.len() == 0 && r.sleep_ms is None
    } else {
        match usage {
            Err(m) => r.state == PollerState::Failed && r.sleep_ms is None && r.emitted@.len() == 1
                && is_error_event(r.emitted@[0], command, m),
            Ok((cpu, memory)) => {
                &&& r.emitted@.len() == 1
                &&& is_metrics_event(r.emitted@[0], pod, metric_json_spec(cpu, memory, ts, pod))
                &&& r.state == PollerState::Running
                &&& r.sleep_ms == Some(METRICS_INTERVAL_MS)
            },
        }
    }
}

/// The view of a fetched CPU/memory usage.
pub open spec fn usage_view(u: Result<(String, String), String>) -> Result<(Seq<char>, Seq<char>), Seq<char>> {
    match u {
        Ok((c, m)) => Ok((c@, m@)),
        Err(e) => Err(e@),
    }
}

/// One tick of a metrics stream: stop, emitting nothing, if any value was
/// received on the cancellation channel; else emit the sample and sleep the
/// fixed interval. A failed fetch ends the stream with an error event.
pub fn metrics_tick(
    state: PollerState,
    command: &str,
    pod: &str,
    usage: Result<(String, String), String>,
    ts: u128,
    received: Option<String>,
) -> (r: Step)
    ensures
        metrics_tick_post(state, command@, pod@, usage_view(usage), ts as nat, received is Some, r),
{
    if state != PollerState::Running {
        return Step { state, emitted: Vec::new(), sleep_ms: None };
    }
    if received.is_some() {
        return Step { state: PollerState::Cancelled, emitted: Vec::new(), sleep_ms: None };
    }
    match usage {
        Err(m) => {
            let e = error_event(command, m);
            let mut emitted: Vec<Emission> = Vec::new();
            emitted.push(e);
            Step { state: PollerState::Failed, emitted, sleep_ms: None }
        },
        Ok((cpu, memory)) => {
            let metric = Metric { cpu, memory, ts, pod: String::from_str(pod) };
            let json = metric.to_json();
            let e = Emission::Metrics(Payload { message: json, metadata: String::from_str(pod) });
            let mut emitted: Vec<Emission> = Vec::new();
            emitted.push(e);
            Step { state: PollerState::Running, emitted, sleep_ms: Some(METRICS_INTERVAL_MS) }
        },
    }
}

/// One line read by a log tail: if any value was received on the
/// cancellation channel the stream stops before emitting the line.
pub open spec fn log_tail_post(state: PollerState, pod: Seq<char>, line: Seq<char>, stop_signal: bool, r: Step) -> bool {
    &&& r.sleep_ms is None
    &&& if state != PollerState::Running {
        r.state == state && r.emitted@.len() == 0
    } else if stop_signal {
        r.state == PollerState::Cancelled && r.emitted@.len() == 0
    } else {
        r.state == PollerState::Running && r.emitted@.len() == 1 && is_log_event(r.emitted@[0], pod, line)
    }
}

/// Handles one line of a following log stream.
pub fn log_tail_step(state: PollerState, pod: &str, line: String, received: Option<String>) -> (r: Step)
    ensures
        log_tail_post(state, pod@, line@, received is Some, r),
{
    if state != PollerState::Running || received.is_some() {
        let next = if state == PollerState::Running { PollerState::Cancelled } else { state };
        return Step { state: next, emitted: Vec::new(), sleep_ms: None };
    }
    let e = Emission::Logs(Payload { message: line, metadata: String::from_str(pod) });
    let mut emitted: Vec<Emission> = Vec::new();
    emitted.push(e);
    Step { state: PollerState::Running, emitted, sleep_ms: None }
}

/// The end of a log stream: it completes when the stream ran out and fails,
/// with an error event, when reading broke off.
pub open spec fn log_end_post(state: PollerState, command: Seq<char>, end: Result<(), Seq<char>>, r: Step) -> bool {
    &&& r.sleep_ms is None
    &&& if state != PollerState::Running {
        r.state == state && r.emitted@.len() == 0
    } else {
        match end {
            Ok(_) => r.state == PollerState::Completed && r.emitted@.len() == 0,
            Err(m) => r.state == PollerState::Failed && r.emitted@.len() == 1
                && is_error_event(r.emitted@[0], command, m),
        }
    }
}

/// Handles the end of a log stream.
pub fn log_end_step(state: PollerState, command: &str, end: Result<(), String>) -> (r: Step)
    ensures
        log_end_post(state, command@, match end { Ok(u) => Ok(u), Err(m) => Err(m@) }, r),
{
    if state != PollerState::Running {
        return Step { state, emitted: Vec::new(), sleep_ms: None };
    }
    match end {
        Ok(_) => Step { state: PollerState::Completed, emitted: Vec::new(), sleep_ms: None },
        Err(m) => {
            let e = error_event(command, m);
            let mut emitted: Vec<Emission> = Vec::new();
            emitted.push(e);
            Step { state: PollerState::Failed, emitted, sleep_ms: None }
        },
    }
}

/// The terminal state after teardown: a cancelled, completed or failed stream
/// is terminated; any other state is left as it is.
pub fn teardown(state: PollerState) -> (r: PollerState)
    ensures
        (state == PollerState::Cancelled || state == PollerState::Completed || state == PollerState::Failed)
            ==> r == PollerState::Terminated,
        !(state == PollerState::Cancelled || state == PollerState::Completed || state == PollerState::Failed)
            ==> r == state,
{
    match state {
        PollerState::Cancelled | PollerState::Completed | PollerState::Failed => PollerState::Terminated,
        _ => state,
    }
}

/// Whether a stream in this state still runs steps.
pub open spec fn is_live(s: PollerState) -> bool {
    s == PollerState::Starting || s == PollerState::Running
}

/// A running metrics stream checks for a stop at the top of every tick and
/// waits one interval between two ticks, so a stop sent while it runs is
/// seen within one interval. The tick that sees the stop emits nothing (no
/// sample for that tick, and a log tail drops its pending line), is
/// cancelled, asks for no further wait, and from then on the stream emits
/// nothing, whatever a later step is handed.
pub proof fn law_stop_ends_stream(
    command: Seq<char>,
    pod: Seq<char>,
    usage: Result<(Seq<char>, Seq<char>), Seq<char>>,
    line: Seq<char>,
    ts: nat,
    stop_signal: bool,
    waiting_tick: Step,
    tick: Step,
    log: Step,
    later_tick: Step,
    later_log: Step,
)
    requires
        metrics_tick_post(PollerState::Running, command, pod, usage, ts, false, waiting_tick),
        metrics_tick_post(PollerState::Running, command, pod, usage, ts, true, tick),
        log_tail_post(PollerState::Running, pod, line, true, log),
        metrics_tick_post(PollerState::Cancelled, command, pod, usage, ts, stop_signal, later_tick),
        log_tail_post(PollerState::Cancelled, pod, line, stop_signal, later_log),
    ensures
        waiting_tick.state == PollerState::Running ==> waiting_tick.sleep_ms == Some(METRICS_INTERVAL_MS),
        tick.state == PollerState::Cancelled,
        tick.emitted@.len() == 0,
        !is_live(tick.state),
        tick.sleep_ms is None,
        log.state == PollerState::Cancelled,
        log.emitted@.len() == 0,
        later_tick.emitted@.len() == 0,
        later_tick.state == PollerState::Cancelled,
        later_log.emitted@.len() == 0,
        later_log.state == PollerState::Cancelled,
{
}

/// The first failed fetch among the samples, if any.
pub open spec fn first_failure(samples: Seq<(String, Result<(String, String), String>)>) -> Option<int> {
    if exists|i: int| 0 <= i < samples.len() && samples[i].1 is Err {
        Some(choose|i: int| 0 <= i < samples.len() && samples[i].1 is Err && forall|j: int| 0 <= j < i ==> samples[j].1 is Ok)
    } else {
        None
    }
}

/// The sample of one pod from its fetched usage, or the fetch's failure.
pub fn pod_metric(pod: &str, usage: Result<(String, String), String>, ts: u128) -> (r: Result<Metric, String>)
    ensures
        match usage_view(usage) {
            Ok((cpu, memory)) => r matches Ok(m) && m.cpu@ == cpu && m.memory@ == memory && m.ts == ts
                && m.pod@ == pod@,
            Err(e) => r matches Err(f) && f@ == e,
        },
{
    match usage {
        Ok((cpu, memory)) => Ok(Metric { cpu, memory, ts, pod: String::from_str(pod) }),
        Err(e) => Err(e),
    }
}

/// One tick of a stream over several pods (a deployment's, resolved once
/// when the stream started). A stop seen at the top of the tick cancels the
/// stream with no event; else one `metrics` event per pod in order, then the
/// fixed sleep. A failed fetch emits an error event after the samples
/// before it and fails the stream.
pub open spec fn metrics_round_post(
    state: PollerState,
    command: Seq<char>,
    samples: Seq<(String, Result<(String, String), String>)>,
    ts: nat,
    stop_signal: bool,
    r: Step,
) -> bool {
    if state != PollerState::Running {
        r.state == state && r.emitted@.len() == 0 && r.sleep_ms is None
    } else if stop_signal {
        r.state == PollerState::Cancelled && r.emitted@.len() == 0 && r.sleep_ms is None
    } else {
        let n = match first_failure(samples) { Some(k) => k, None => samples.len() as int };
        &&& forall|i: int| 0 <= i < n ==> is_metrics_event(#[trigger] r.emitted@[i], samples[i].0@,
            metric_json_spec(samples[i].1->Ok_0.0@, samples[i].1->Ok_0.1@, ts, samples[i].0@))
        &&& match first_failure(samples) {
            Some(k) => r.emitted@.len() == k + 1 && is_error_event(r.emitted@[k], command, samples[k].1->Err_0@)
                && r.state == PollerState::Failed && r.sleep_ms is None,
            None => r.emitted@.len() == samples.len() && r.state == PollerState::Running
                && r.sleep_ms == Some(METRICS_INTERVAL_MS),
        }
    }
}

/// One tick of a stream over several pods.
pub fn metrics_round(
    state: PollerState,
    command: &str,
    samples: &Vec<(String, Result<(String, String), String>)>,
    ts: u128,
    received: Option<String>,
) -> (r: Step)
    ensures
        metrics_round_post(state, command@, samples@, ts as nat, received is Some, r),
{
    if state != PollerState::Running {
        return Step { state, emitted: Vec::new(), sleep_ms: None };
    }
    if received.is_some() {
        return Step { state: PollerState::Cancelled, emitted: Vec::new(), sleep_ms: None };
    }
    let mut emitted: Vec<Emission> = Vec::new();
    let mut i: usize = 0;
    while i < samples.len()
        invariant
            state == PollerState::Running,
            received is None,
            i <= samples@.len(),
            emitted@.len() == i,
            forall|j: int| 0 <= j < i ==> samples@[j].1 is Ok,
            forall|j: int| 0 <= j < i ==> is_metrics_event(#[trigger] emitted@[j], samples@[j].0@,
                metric_json_spec(samples@[j].1->Ok_0.0@, samples@[j].1->Ok_0.1@, ts as nat, samples@[j].0@)),
        decreases samples@.len() - i,
    {
        let pod = samples[i].0.as_str();
        match &samples[i].1 {
            Ok((cpu, memory)) => {
                let metric = Metric { cpu: cpu.clone(), memory: memory.clone(), ts, pod: String::from_str(pod) };
                let json = metric.to_json();
                emitted.push(Emission::Metrics(Payload { message: json, metadata: String::from_str(pod) }));
            },
            Err(m) => {
                let ghost before = emitted@;
                emitted.push(error_event(command, m.clone()));
                proof {
                    assert forall|j: int| 0 <= j < i implies is_metrics_event(#[trigger] emitted@[j], samples@[j].0@,
                        metric_json_spec(samples@[j].1->Ok_0.0@, samples@[j].1->Ok_0.1@, ts as nat, samples@[j].0@)) by {
                        assert(emitted@[j] == before[j]);
                    }
                    let w = choose|w: int|
                        0 <= w < samples@.len() && samples@[w].1 is Err && forall|j: int| 0 <= j < w ==> samples@[j].1 is Ok;
                    assert(w == i as int) by {
                        if w < i { assert(samples@[w].1 is Ok); }
                        if w > i { assert(samples@[i as int].1 is Ok); }
                    }
                }
                return Step { state: PollerState::Failed, emitted, sleep_ms: None };
            },
        }
        i = i + 1;
    }
    Step { state: PollerState::Running, emitted, sleep_ms: Some(METRICS_INTERVAL_MS) }
}

/// Reads one-shot log lines (no following, not cancellable): one `logs`
/// event per line, in order.
pub fn get_logs_for_pod(pod: &str, lines: Vec<String>) -> (r: Vec<Emission>)
    ensures
        r@.len() == lines@.len(),
        forall|i: int| 0 <= i < r@.len() ==> is_log_event(#[trigger] r@[i], pod@, lines@[i]@),
{
    let mut r: Vec<Emission> = Vec::new();
    let mut i: usize = 0;
    while i < lines.len()
        invariant
            i <= lines@.len(),
            r@.len() == i,
            forall|j: int| 0 <= j < i ==> is_log_event(#[trigger] r@[j], pod@, lines@[j]@),
        decreases lines@.len() - i,
    {
        let line = lines[i].clone();
        r.push(Emission::Logs(Payload { message: line, metadata: String::from_str(pod) }));
        i = i + 1;
    }
    r
}

/// The log request parameters: a tail follows from the last line, a one-shot
/// fetch reads the trailing hundred.
#[derive(PartialEq, Eq, Structural, Clone, Copy, Debug)]
pub struct LogRequest {
    pub follow: bool,
    pub tail_lines: u64,
}

/// The log request for a tail (`follow`) or a one-shot fetch.
pub fn log_request(follow: bool) -> (r: LogRequest)
    ensures
        r.follow == follow,
        r.tail_lines == if follow { LOG_TAIL_LINES } else { LOG_FETCH_TAIL_LINES },
{
    LogRequest { follow, tail_lines: if follow { LOG_TAIL_LINES } else { LOG_FETCH_TAIL_LINES } }
}

/// The reply to a metrics-for-deployment command: the samples of every pod
/// as a JSON array, or the first failure as an error envelope.
pub open spec fn deployment_metrics_post(
    command: Seq<char>,
    fetched: Seq<Result<Metric, String>>,
    r: Emission,
) -> bool {
    if exists|i: int| 0 <= i < fetched.len() && fetched[i] is Err {
        let i = choose|i: int|
            0 <= i < fetched.len() && fetched[i] is Err && forall|j: int| 0 <= j < i ==> fetched[j] is Ok;
        r matches Emission::Error(c) && c.command@ == command && c.data@ == fetched[i]->Err_0@
    } else {
        r matches Emission::CommandResult(c) && c.command@ == command
            && c.data@ == "["@ + joined(
            fetched.map_values(|f: Result<Metric, String>| metric_view_json(f->Ok_0)),
        ) + "]"@
    }
}

/// Builds the reply to a metrics-for-deployment command from the samples
/// fetched for its pods, resolved once for this call.
pub fn get_metrics_for_deployment(command: &str, fetched: Vec<Result<Metric, String>>) -> (r: Emission)
    ensures
        deployment_metrics_post(command@, fetched@, r),
{
    let mut ms: Vec<Metric> = Vec::new();
    let mut i: usize = 0;
    while i < fetched.len()
        invariant
            i <= fetched@.len(),
            ms@.len() == i,
            forall|j: int| 0 <= j < i ==> fetched@[j] is Ok,
            forall|j: int| 0 <= j < i ==> metric_view_json(#[trigger] ms@[j]) == metric_view_json(fetched@[j]->Ok_0),
        decreases fetched@.len() - i,
    {
        match &fetched[i] {
            Ok(m) => {
                ms.push(Metric { cpu: m.cpu.clone(), memory: m.memory.clone(), ts: m.ts, pod: m.pod.clone() });
            },
            Err(e) => {
                let r = error_event(command, e.clone());
                proof {
                    let w = choose|w: int|
                        0 <= w < fetched@.len() && fetched@[w] is Err && forall|j: int| 0 <= j < w ==> fetched@[j] is Ok;
                    assert(w == i as int) by {
                        if w < i { assert(fetched@[w] is Ok); }
                        if w > i { assert(fetched@[i as int] is Ok); }
                    }
                }
                return r;
            },
        }
        i = i + 1;
    }
    let json = metrics_to_json(&ms);
    proof {
        assert(ms@.map_values(|m: Metric| metric_view_json(m)) =~= fetched@.map_values(
            |f: Result<Metric, String>| metric_view_json(f->Ok_0),
        ));
    }
    Emission::CommandResult(CommandResult { command: String::from_str(command), data: json })
}

} // verus!
