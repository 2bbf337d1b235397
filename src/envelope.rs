use vstd::prelude::*;

verus! {

/// The reply to one dispatched command: `command` echoes the command name so
/// that the UI can correlate replies that arrive out of order.
#[derive(Clone, Debug)]
pub struct CommandResult {
    pub command: String,
    pub data: String,
}

impl CommandResult {
    /// An envelope with an empty command name and empty data.
    pub fn new() -> (r: CommandResult)
        ensures
            r.command@.len() == 0,
            r.data@.len() == 0,
    {
        CommandResult { command: String::new(), data: String::new() }
    }
}

/// A named event with a text payload.
#[derive(Clone, Debug)]
pub struct EventHolder {
    pub event: String,
    pub data: String,
}

impl EventHolder {
    /// An event with an empty name and empty data.
    pub fn new() -> (r: EventHolder)
        ensures
            r.event@.len() == 0,
            r.data@.len() == 0,
    {
        EventHolder { event: String::new(), data: String::new() }
    }
}

/// A stream payload: `message` is the line or serialized sample, `metadata`
/// the pod it belongs to.
#[derive(Clone, Debug)]
pub struct Payload {
    pub message: String,
    pub metadata: String,
}

impl Payload {
    /// A payload with empty message and metadata.
    pub fn new() -> (r: Payload)
        ensures
            r.message@.len() == 0,
            r.metadata@.len() == 0,
    {
        Payload { message: String::new(), metadata: String::new() }
    }
}

/// One event pushed to the UI layer, by channel.
#[derive(Clone, Debug)]
pub enum Emission {
    /// `command_result`: a successful one-shot reply.
    CommandResult(CommandResult),
    /// `error`: a failed one-shot or stream, with the failure text in `data`.
    Error(CommandResult),
    /// `metrics`: a serialized metric sample for a pod.
    Metrics(Payload),
    /// `logs`: one raw log line for a pod.
    Logs(Payload),
}

/// The command name that an emission carries, if it is an envelope.
pub open spec fn emission_command(e: Emission) -> Option<Seq<char>> {
    match e {
        Emission::CommandResult(c) => Some(c.command@),
        Emission::Error(c) => Some(c.command@),
        _ => None,
    }
}

/// The emission that reports the outcome of one call made for `command`:
/// success data goes to `command_result`, failure text to `error`.
pub open spec fn outcome_emission_spec(
    command: Seq<char>,
    outcome: Result<Seq<char>, Seq<char>>,
    e: Emission,
) -> bool {
    match outcome {
        Ok(d) => e matches Emission::CommandResult(c) && c.command@ == command && c.data@ == d,
        Err(m) => e matches Emission::Error(c) && c.command@ == command && c.data@ == m,
    }
}

/// The view of a call outcome.
pub open spec fn outcome_view(o: Result<String, String>) -> Result<Seq<char>, Seq<char>> {
    match o {
        Ok(d) => Ok(d@),
        Err(m) => Err(m@),
    }
}

/// Reports the outcome of one call made for `command`.
pub fn outcome_emission(command: &str, outcome: Result<String, String>) -> (r: Emission)
    ensures
        outcome_emission_spec(command@, outcome_view(outcome), r),
{
    match outcome {
        Ok(d) => Emission::CommandResult(CommandResult { command: String::from_str(command), data: d }),
        Err(m) => Emission::Error(CommandResult { command: String::from_str(command), data: m }),
    }
}

/// Reports each outcome of the calls made for one command, in order: one
/// emission per outcome, so a failed call never hides its siblings' results.
pub fn outcome_emissions(command: &str, outcomes: Vec<Result<String, String>>) -> (r: Vec<Emission>)
    ensures
        r@.len() == outcomes@.len(),
        forall|i: int|
            0 <= i < r@.len() ==> outcome_emission_spec(command@, outcome_view(#[trigger] outcomes@[i]), r@[i]),
{
    let mut r: Vec<Emission> = Vec::new();
    let mut i: usize = 0;
    while i < outcomes.len()
        invariant
            i <= outcomes@.len(),
            r@.len() == i,
            forall|j: int|
                0 <= j < i ==> outcome_emission_spec(command@, outcome_view(#[trigger] outcomes@[j]), r@[j]),
        decreases outcomes@.len() - i,
    {
        let o = match &outcomes[i] {
            Ok(d) => Ok(d.clone()),
            Err(m) => Err(m.clone()),
        };
        let e = outcome_emission(command, o);
        r.push(e);
        i = i + 1;
    }
    r
}

/// The reply to a mutating command (restart, apply, delete, edit): `success`
/// on `command_result`, or the failure text on `error`.
pub open spec fn mutation_post(command: Seq<char>, outcome: Result<(), Seq<char>>, e: Emission) -> bool {
    match outcome {
        Ok(_) => e matches Emission::CommandResult(c) && c.command@ == command && c.data@ == "success"@,
        Err(m) => e matches Emission::Error(c) && c.command@ == command && c.data@ == m,
    }
}

/// Reports the outcome of a mutating command.
pub fn mutation_reply(command: &str, outcome: Result<(), String>) -> (r: Emission)
    ensures
        mutation_post(command@, match outcome { Ok(u) => Ok(u), Err(m) => Err(m@) }, r),
{
    match outcome {
        Ok(_) => Emission::CommandResult(CommandResult { command: String::from_str(command), data: String::from_str("success") }),
        Err(m) => Emission::Error(CommandResult { command: String::from_str(command), data: m }),
    }
}

/// Reports the outcome of a deployment restart.
pub fn restart_deployment(command: &str, outcome: Result<(), String>) -> (r: Emission)
    ensures
        mutation_post(command@, match outcome { Ok(u) => Ok(u), Err(m) => Err(m@) }, r),
{
    mutation_reply(command, outcome)
}

/// The direct reply to a synchronous command, and the error event that goes
/// with a failure: on success the reply carries the data; on failure its
/// data is empty and an `error` event carries the failure text.
pub open spec fn sync_reply_post(command: Seq<char>, outcome: Result<Seq<char>, Seq<char>>, r: (CommandResult, Option<Emission>)) -> bool {
    &&& r.0.command@ == command
    &&& match outcome {
        Ok(d) => r.0.data@ == d && r.1 is None,
        Err(m) => r.0.data@.len() == 0 && (r.1 matches Some(e) && (e matches Emission::Error(c)
            && c.command@ == command && c.data@ == m)),
    }
}

/// Builds the direct reply to a synchronous command.
pub fn sync_reply(command: &str, outcome: Result<String, String>) -> (r: (CommandResult, Option<Emission>))
    ensures
        sync_reply_post(command@, outcome_view(outcome), r),
{
    match outcome {
        Ok(d) => (CommandResult { command: String::from_str(command), data: d }, None),
        Err(m) => (
            CommandResult { command: String::from_str(command), data: String::new() },
            Some(Emission::Error(CommandResult { command: String::from_str(command), data: m })),
        ),
    }
}

/// Builds the direct reply to a resource edit: `Success`, or an empty reply
/// with the error event `Failed to edit resource`.
pub fn edit_reply(command: &str, succeeded: bool) -> (r: (CommandResult, Option<Emission>))
    ensures
        sync_reply_post(
            command@,
            if succeeded { Ok("Success"@) } else { Err("Failed to edit resource"@) },
            r,
        ),
{
    if succeeded {
        sync_reply(command, Ok(String::from_str("Success")))
    } else {
        sync_reply(command, Err(String::from_str("Failed to edit resource")))
    }
}

/// The bare signals that application start emits, in order: whether any
/// cluster was found, whether a valid license is stored, whether the license
/// agreement was accepted.
pub open spec fn startup_signals_spec(clusters_found: bool, license_valid: bool, eula_accepted: bool) -> Seq<Seq<char>> {
    seq![
        if clusters_found { "cluster_found"@ } else { "no_cluster_found"@ },
        if license_valid { "valid_license_found"@ } else { "no_license_found"@ },
        if eula_accepted { "eula_accepted"@ } else { "eula_not_accepted"@ },
    ]
}

/// The bare signals that application start emits. A license counts as
/// valid only when one is stored and it verified.
pub fn startup_signals(clusters_found: bool, license_valid: bool, eula_accepted: bool) -> (r: Vec<String>)
    ensures
        r@.len() == 3,
        forall|i: int| 0 <= i < 3 ==> (#[trigger] r@[i])@ == startup_signals_spec(clusters_found, license_valid, eula_accepted)[i],
{
    let c = if clusters_found { "cluster_found" } else { "no_cluster_found" };
    let l = if license_valid { "valid_license_found" } else { "no_license_found" };
    let e = if eula_accepted { "eula_accepted" } else { "eula_not_accepted" };
    let r = vec![String::from_str(c), String::from_str(l), String::from_str(e)];
    r
}

} // verus!
