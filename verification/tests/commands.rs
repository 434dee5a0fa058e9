use cadency_core::command::{
    CadencyCommand, CadencyCommandBaseline, CadencyCommandOption, CommandMetadata, CommandsScope,
    MetadataModel,
};
use cadency_core::dispatch::{
    report_unknown, route, unknown_command_response, DispatchDecision, DispatchTask,
    InvocationEvent,
};
use cadency_core::error::CadencyError;
use cadency_core::registry::Registry;
use cadency_core::response::Response;

struct PingCommand;

impl CadencyCommandBaseline for PingCommand {
    // The mathematical metadata value is ghost: it exists for verification
    // only and is never evaluated at run time.
    fn spec_metadata(&self) -> MetadataModel {
        unreachable!()
    }

    fn name(&self) -> String {
        "ping".to_owned()
    }

    fn description(&self) -> String {
        "Play ping pong".to_owned()
    }

    fn deferred(&self) -> bool {
        false
    }

    fn options(&self) -> Vec<CadencyCommandOption> {
        Vec::new()
    }
}

impl CadencyCommand for PingCommand {}

impl PingCommand {
    /// Stands in for the asynchronous execution entry point of the runtime
    /// collaborator.
    fn execute(&self) -> Result<Response, CadencyError> {
        Ok(Response::new("pong".to_owned()))
    }
}

#[test]
fn metadata_is_collected_from_the_contract() {
    let ping = PingCommand;
    let meta: CommandMetadata = ping.metadata();
    assert_eq!(meta.name, "ping");
    assert_eq!(meta.description, "Play ping pong");
    assert!(!meta.deferred);
    assert!(meta.options.is_empty());
}

#[test]
fn register_maps_metadata_under_the_scope() {
    let ping = PingCommand;
    let declaration = ping.register(CommandsScope::Guild(9));
    assert_eq!(declaration.name, "ping");
    assert_eq!(declaration.description, "Play ping pong");
    assert_eq!(declaration.scope, CommandsScope::Guild(9));
    assert!(declaration.options.is_empty());
}

#[test]
fn duplicate_names_are_rejected_without_change() {
    let ping = PingCommand;
    let mut registry = Registry::new();
    assert!(registry.register_command(&ping));
    assert!(!registry.register_command(&ping));
    assert_eq!(registry.len(), 1);
    assert_eq!(registry.get(0).name, "ping");
}

#[test]
fn default_scope_is_global() {
    assert_eq!(CommandsScope::default(), CommandsScope::Global);
}

#[test]
fn ping_scenario() {
    let ping = PingCommand;
    let mut registry = Registry::new();
    assert!(registry.register_command(&ping));

    // Event "ping": the matching command is invoked and answers "pong".
    let ev = InvocationEvent { command_name: "ping".to_owned(), arguments: Vec::new() };
    match route(&registry, &ev) {
        DispatchDecision::Invoke(i) => {
            assert_eq!(i, 0);
            assert_eq!(registry.get(i).name, "ping");
            let task = DispatchTask::new(registry.get(i).deferred);
            let outcome = task.complete(ping.execute());
            assert_eq!(outcome, Ok(Response::new("pong".to_owned())));
        },
        DispatchDecision::Unknown => panic!("ping must be registered"),
    }

    // Event "pong": no command is invoked; the event is acknowledged once
    // with the generic unknown-command answer and the dispatch ends cleanly.
    let stray = InvocationEvent { command_name: "pong".to_owned(), arguments: Vec::new() };
    assert_eq!(route(&registry, &stray), DispatchDecision::Unknown);
    assert_eq!(unknown_command_response().text, "Unknown command");
    assert_eq!(report_unknown(true), Ok(()));
    assert_eq!(registry.len(), 1);
}
