use vstd::prelude::*;

use crate::command::MetadataModel;
use crate::error::CadencyError;
use crate::registry::Registry;
use crate::response::Response;

verus! {

/// One user-supplied argument value carried by an invocation event.
#[derive(Debug, Clone, PartialEq, Eq)]
pub enum ArgumentValue {
    Text(String),
    Integer(i64),
    Boolean(bool),
}

/// One named argument of an invocation.
#[derive(Debug, Clone, PartialEq, Eq)]
pub struct Argument {
    pub name: String,
    pub value: ArgumentValue,
}

/// The runtime notification that a user triggered a command: the invoked
/// command's name and the user-supplied argument values. Supplied by the
/// gateway collaborator and only borrowed for the duration of dispatch.
#[derive(Debug, Clone)]
pub struct InvocationEvent {
    pub command_name: String,
    pub arguments: Vec<Argument>,
}

/// The router's verdict on one invocation event.
#[derive(Debug, Clone, Copy, PartialEq, Eq, Structural)]
pub enum DispatchDecision {
    /// The event names the registered command at this registry position; its
    /// execution is to be invoked exactly once.
    Invoke(usize),
    /// No registered command bears the event's name. This is an expected,
    /// non-fatal race (for instance platform-side caching skew after a command
    /// was removed), answered with a single generic acknowledgment.
    Unknown,
}

/// Resolves an invocation event against the registry by exact, case-sensitive
/// name comparison. The event and the registry are only read.
pub fn route(registry: &Registry, event: &InvocationEvent) -> (r: DispatchDecision)
    requires
        registry.wf(),
    ensures
        match r {
            DispatchDecision::Invoke(i) => i < registry.entries_model().len()
                && registry.entries_model()[i as int].name == event.command_name@,
            DispatchDecision::Unknown => !registry.contains_name(event.command_name@),
        },
        r is Invoke <==> registry.contains_name(event.command_name@),
{
    match registry.lookup(&event.command_name) {
        Some(i) => DispatchDecision::Invoke(i),
        None => DispatchDecision::Unknown,
    }
}

/// With registry names unique, an event's name matches at most one registered
/// command, so a matched dispatch has exactly one execution target.
pub proof fn lemma_dispatch_target_unique(
    entries: Seq<MetadataModel>,
    name: Seq<char>,
    i: int,
    j: int,
)
    requires
        forall|p: int, q: int| 0 <= p < q < entries.len() ==> entries[p].name != entries[q].name,
        0 <= i < entries.len(),
        0 <= j < entries.len(),
        entries[i].name == name,
        entries[j].name == name,
    ensures
        i == j,
{
    if i < j {
        assert(entries[i].name != entries[j].name);
    } else if j < i {
        assert(entries[j].name != entries[i].name);
    }
}

/// The generic acknowledgment sent to the platform when an event matches no
/// registered command.
pub fn unknown_command_response() -> (r: Response)
    ensures
        r.text@ == "Unknown command"@,
{
    Response { text: "Unknown command".to_owned() }
}

/// Finishes the unknown-command path once the gateway reports whether the
/// acknowledgment was delivered: a failed delivery surfaces as a response
/// error, a delivered one ends the dispatch without error. The path never
/// raises beyond that.
pub fn report_unknown(delivered: bool) -> (r: Result<(), CadencyError>)
    ensures
        delivered ==> r == Ok::<(), CadencyError>(()),
        !delivered ==> r == Err::<(), CadencyError>(CadencyError::Response),
{
    if delivered {
        Ok(())
    } else {
        Err(CadencyError::Response)
    }
}

/// Two-phase completion of one invocation: a deferred command must acknowledge
/// the platform within its short response window before any expensive work and
/// deliver the final outcome later; a non-deferred one answers directly.
#[derive(Debug, Clone, Copy)]
pub struct DispatchTask {
    pub deferred: bool,
    pub acknowledged: bool,
}

/// What delivering an execution outcome through a dispatch task yields: the
/// outcome itself, unchanged, whatever the task's phase.
pub open spec fn completion(
    task: DispatchTask,
    outcome: Result<Response, CadencyError>,
) -> Result<Response, CadencyError> {
    outcome
}

impl DispatchTask {
    /// A fresh task for one invocation of a command with the given deferred
    /// flag; nothing has been acknowledged yet.
    pub fn new(deferred: bool) -> (r: DispatchTask)
        ensures
            r.deferred == deferred,
            !r.acknowledged,
    {
        DispatchTask { deferred, acknowledged: false }
    }

    /// Records the immediate acknowledgment sent to the platform.
    pub fn acknowledge(&mut self)
        ensures
            final(self).acknowledged,
            final(self).deferred == old(self).deferred,
    {
        self.acknowledged = true;
    }

    /// Delivers the outcome of the command's execution. A deferred command
    /// must have acknowledged before it completes; the outcome passes through
    /// unchanged, so a failure is never turned into a success.
    pub fn complete(self, outcome: Result<Response, CadencyError>) -> (r: Result<
        Response,
        CadencyError,
    >)
        requires
            self.deferred ==> self.acknowledged,
        ensures
            r == completion(self, outcome),
    {
        outcome
    }
}

/// What the external response renderer observes of one finished dispatch.
#[derive(Debug, Clone, PartialEq, Eq)]
pub enum RenderedOutcome {
    /// A success payload to render and send.
    Success(Response),
    /// A failure to convert into a user-visible error message.
    Failure(CadencyError),
}

/// The renderer's view of a dispatch outcome.
pub open spec fn renderer_observation(outcome: Result<Response, CadencyError>) -> RenderedOutcome {
    match outcome {
        Ok(resp) => RenderedOutcome::Success(resp),
        Err(e) => RenderedOutcome::Failure(e),
    }
}

/// Hands a dispatch outcome across the boundary to the response renderer.
pub fn render_outcome(outcome: Result<Response, CadencyError>) -> (r: RenderedOutcome)
    ensures
        r == renderer_observation(outcome),
{
    match outcome {
        Ok(resp) => RenderedOutcome::Success(resp),
        Err(e) => RenderedOutcome::Failure(e),
    }
}

/// A deferred command that fails inside its execution after acknowledging
/// still yields the error, never a successful response, and the failure is
/// exactly what the response renderer observes.
pub proof fn lemma_deferred_failure_observable(task: DispatchTask, e: CadencyError)
    requires
        task.deferred,
        task.acknowledged,
    ensures
        completion(task, Err::<Response, CadencyError>(e)) is Err,
        renderer_observation(completion(task, Err::<Response, CadencyError>(e)))
            == RenderedOutcome::Failure(e),
{
}

} // verus!
