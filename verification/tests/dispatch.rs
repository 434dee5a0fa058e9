use cadency_core::command::CommandMetadata;
use cadency_core::dispatch::{
    render_outcome, report_unknown, route, unknown_command_response, DispatchDecision,
    DispatchTask, InvocationEvent, RenderedOutcome,
};
use cadency_core::error::CadencyError;
use cadency_core::registry::Registry;
use cadency_core::response::Response;

fn metadata(name: &str) -> CommandMetadata {
    CommandMetadata {
        name: name.to_owned(),
        description: "a command".to_owned(),
        deferred: false,
        options: Vec::new(),
    }
}

fn event(name: &str) -> InvocationEvent {
    InvocationEvent { command_name: name.to_owned(), arguments: Vec::new() }
}

#[test]
fn matching_event_routes_to_its_command() {
    let mut registry = Registry::new();
    assert!(registry.insert(metadata("ping")));
    assert!(registry.insert(metadata("play")));

    let ev = event("play");
    let decision = route(&registry, &ev);
    assert_eq!(decision, DispatchDecision::Invoke(1));
    assert_eq!(registry.get(1).name, "play");
    // The router only reads the event: the payload is untouched.
    assert_eq!(ev.command_name, "play");
    assert!(ev.arguments.is_empty());
}

#[test]
fn unmatched_event_is_acknowledged_once_and_registry_unchanged() {
    let mut registry = Registry::new();
    assert!(registry.insert(metadata("ping")));

    let decision = route(&registry, &event("pong"));
    assert_eq!(decision, DispatchDecision::Unknown);
    assert_eq!(registry.len(), 1);
    assert_eq!(registry.get(0).name, "ping");

    let ack = unknown_command_response();
    assert_eq!(ack.text, "Unknown command");
    // Delivered acknowledgment: the path ends without error.
    assert_eq!(report_unknown(true), Ok(()));
}

#[test]
fn failed_unknown_acknowledgment_surfaces_as_response_error() {
    assert_eq!(report_unknown(false), Err(CadencyError::Response));
}

#[test]
fn empty_registry_routes_everything_to_unknown() {
    let registry = Registry::new();
    let decision = route(&registry, &event("ping"));
    assert_eq!(decision, DispatchDecision::Unknown);
}

#[test]
fn deferred_failure_after_acknowledgment_stays_a_failure() {
    let mut task = DispatchTask::new(true);
    assert!(task.deferred);
    assert!(!task.acknowledged);
    task.acknowledge();
    assert!(task.acknowledged);

    let failure = CadencyError::Command("downstream lookup failed".to_owned());
    let outcome = task.complete(Err(failure.clone()));
    assert_eq!(outcome, Err(failure.clone()));
    // The failure is what the response renderer observes, never a success.
    assert_eq!(render_outcome(outcome), RenderedOutcome::Failure(failure));
}

#[test]
fn successful_outcome_reaches_the_renderer_unchanged() {
    let task = DispatchTask::new(false);
    let outcome = task.complete(Ok(Response::new("pong".to_owned())));
    assert_eq!(outcome, Ok(Response::new("pong".to_owned())));
    assert_eq!(
        render_outcome(outcome),
        RenderedOutcome::Success(Response::new("pong".to_owned()))
    );
}

#[test]
fn error_messages_are_user_visible() {
    assert_eq!(CadencyError::Response.message(), "Interaction response failed");
    assert_eq!(
        CadencyError::Command("could not fetch a joke".to_owned()).message(),
        "could not fetch a joke"
    );
}
