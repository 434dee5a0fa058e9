//! A plugin-style command framework core for a remote chat platform.
//!
//! Independently authored commands are registered with a gateway, declared to
//! the remote platform as invocable commands, and dispatched when the platform
//! notifies the process of an invocation. This crate holds the verified core:
//! command metadata, declaration mapping, the registry, the sequential
//! registration protocol, and the dispatch router. The network transport is an
//! external collaborator and lives outside this crate.

pub mod command;
pub mod dispatch;
pub mod error;
pub mod registration;
pub mod registry;
pub mod response;

pub use command::{
    CadencyCommand, CadencyCommandBaseline, CadencyCommandOption, CommandMetadata, CommandsScope,
    OptionKind,
};
pub use dispatch::{
    render_outcome, report_unknown, route, unknown_command_response, Argument, ArgumentValue,
    DispatchDecision, DispatchTask, InvocationEvent, RenderedOutcome,
};
pub use error::CadencyError;
pub use registration::{declare, CommandDeclaration, DeclaredOption, RegistrationProtocol};
pub use registry::Registry;
pub use response::Response;
