use vstd::prelude::*;

use crate::registration::{declare, declaration_of, CommandDeclaration};

verus! {

/// The type a command input parameter accepts, mirroring the platform's
/// option-type tags.
#[derive(Debug, Clone, Copy, PartialEq, Eq, Structural)]
pub enum OptionKind {
    SubCommand,
    SubCommandGroup,
    String,
    Integer,
    Boolean,
    User,
    Channel,
    Role,
    Mentionable,
    Number,
    Attachment,
}

/// Declarative shape of one command input parameter. Constructed once by a
/// command implementation and read-only thereafter.
#[derive(Debug, Clone, PartialEq, Eq)]
pub struct CadencyCommandOption {
    pub name: String,
    pub description: String,
    pub kind: OptionKind,
    pub required: bool,
}

/// Mathematical value of one option descriptor.
#[verifier::ext_equal]
pub struct OptionModel {
    pub name: Seq<char>,
    pub description: Seq<char>,
    pub kind: OptionKind,
    pub required: bool,
}

impl View for CadencyCommandOption {
    type V = OptionModel;

    open spec fn view(&self) -> OptionModel {
        OptionModel {
            name: self.name@,
            description: self.description@,
            kind: self.kind,
            required: self.required,
        }
    }
}

/// The models of a sequence of option descriptors, in the same order.
pub open spec fn option_models(s: Seq<CadencyCommandOption>) -> Seq<OptionModel> {
    s.map_values(|o: CadencyCommandOption| o@)
}

/// Whether a command is declared platform-wide or to one specific community.
///
/// Chosen once per process; global declarations are cached by the platform for
/// up to one hour before they become visible, while community-scoped ones are
/// visible near-instantly and recommended for iterative testing.
#[derive(Debug, Clone, Copy, PartialEq, Eq, Structural, Default)]
pub enum CommandsScope {
    #[default]
    Global,
    Guild(u64),
}

/// Static description of one command: its unique name, its description, the
/// deferred-acknowledgment flag, and its input options in declaration order.
/// Immutable once constructed.
#[derive(Debug, Clone)]
pub struct CommandMetadata {
    pub name: String,
    pub description: String,
    pub deferred: bool,
    pub options: Vec<CadencyCommandOption>,
}

/// Mathematical value of a command's metadata.
#[verifier::ext_equal]
pub struct MetadataModel {
    pub name: Seq<char>,
    pub description: Seq<char>,
    pub deferred: bool,
    pub options: Seq<OptionModel>,
}

impl View for CommandMetadata {
    type V = MetadataModel;

    open spec fn view(&self) -> MetadataModel {
        MetadataModel {
            name: self.name@,
            description: self.description@,
            deferred: self.deferred,
            options: option_models(self.options@),
        }
    }
}

/// The static half of the command contract: pure, deterministic metadata,
/// callable any number of times with identical results. Each getter agrees
/// with the single mathematical metadata value of the implementation.
pub trait CadencyCommandBaseline {
    /// The command's metadata as one mathematical value; the executable
    /// getters below all agree with it.
    spec fn spec_metadata(&self) -> MetadataModel;

    /// The unique name under which the command is declared and dispatched.
    fn name(&self) -> (r: String)
        ensures
            r@ == self.spec_metadata().name,
    ;

    /// The human-readable description shown by the platform.
    fn description(&self) -> (r: String)
        ensures
            r@ == self.spec_metadata().description,
    ;

    /// Whether the command must acknowledge immediately and answer later.
    fn deferred(&self) -> (r: bool)
        ensures
            r == self.spec_metadata().deferred,
    ;

    /// The command's input options, in declaration order.
    fn options(&self) -> (r: Vec<CadencyCommandOption>)
        ensures
            option_models(r@) == self.spec_metadata().options,
    ;
}

/// The full command contract. The dynamic execution entry point is
/// asynchronous platform I/O and lives with the runtime collaborator; here
/// stands everything the registration protocol needs from a command.
pub trait CadencyCommand: Sync + Send + CadencyCommandBaseline {
    /// Collects the command's metadata into one value.
    fn metadata(&self) -> (m: CommandMetadata)
        ensures
            m@ == self.spec_metadata(),
    {
        let m = CommandMetadata {
            name: self.name(),
            description: self.description(),
            deferred: self.deferred(),
            options: self.options(),
        };
        proof {
            assert(m@ =~= self.spec_metadata());
        }
        m
    }

    /// Builds the declaration to submit to the platform's command-declaration
    /// endpoint: the command's metadata mapped under the given scope, with the
    /// name, description and option order carried over unchanged.
    fn register(&self, scope: CommandsScope) -> (r: CommandDeclaration)
        ensures
            r@ == declaration_of(self.spec_metadata(), scope),
    {
        let meta = self.metadata();
        declare(&meta, scope)
    }
}

} // verus!
