use vstd::prelude::*;

use crate::command::{option_models, CadencyCommandOption, CommandMetadata, CommandsScope,
    MetadataModel, OptionModel};
use crate::registry::Registry;

verus! {

/// The platform's option-declaration shape: one command input parameter as it
/// stands in a declaration request.
#[derive(Debug, Clone, PartialEq, Eq)]
pub struct DeclaredOption {
    pub name: String,
    pub description: String,
    pub kind: crate::command::OptionKind,
    pub required: bool,
}

impl View for DeclaredOption {
    type V = OptionModel;

    open spec fn view(&self) -> OptionModel {
        OptionModel {
            name: self.name@,
            description: self.description@,
            kind: self.kind,
            required: self.required,
        }
    }
}

/// The models of a sequence of declared options, in the same order.
pub open spec fn declared_option_models(s: Seq<DeclaredOption>) -> Seq<OptionModel> {
    s.map_values(|o: DeclaredOption| o@)
}

/// A declaration request against the platform's command-declaration endpoint:
/// the command's name, description and mapped options, under one scope.
#[derive(Debug, Clone)]
pub struct CommandDeclaration {
    pub name: String,
    pub description: String,
    pub options: Vec<DeclaredOption>,
    pub scope: CommandsScope,
}

/// Mathematical value of a declaration request.
#[verifier::ext_equal]
pub struct DeclarationModel {
    pub name: Seq<char>,
    pub description: Seq<char>,
    pub options: Seq<OptionModel>,
    pub scope: CommandsScope,
}

impl View for CommandDeclaration {
    type V = DeclarationModel;

    open spec fn view(&self) -> DeclarationModel {
        DeclarationModel {
            name: self.name@,
            description: self.description@,
            options: declared_option_models(self.options@),
            scope: self.scope,
        }
    }
}

/// The registration mapping: what declaring the given metadata under the given
/// scope submits to the platform. Name, description and the options, in their
/// original order, are carried over unchanged.
pub open spec fn declaration_of(m: MetadataModel, scope: CommandsScope) -> DeclarationModel {
    DeclarationModel { name: m.name, description: m.description, options: m.options, scope }
}

/// The declared command name on the platform side equals the metadata's name:
/// a name round-trips unchanged through the registration mapping.
pub proof fn lemma_declared_name_round_trip(m: MetadataModel, scope: CommandsScope)
    ensures
        declaration_of(m, scope).name == m.name,
{
}

/// The registration mapping preserves option order: the declaration carries
/// exactly the metadata's options, each at its original position.
pub proof fn lemma_option_order_preserved(m: MetadataModel, scope: CommandsScope)
    ensures
        declaration_of(m, scope).options.len() == m.options.len(),
        forall|i: int| 0 <= i < m.options.len() ==> declaration_of(m, scope).options[i]
            == m.options[i],
{
}

/// Maps one option descriptor to the platform's option-declaration shape.
fn declare_option(opt: &CadencyCommandOption) -> (r: DeclaredOption)
    ensures
        r@ == opt@,
{
    DeclaredOption {
        name: opt.name.clone(),
        description: opt.description.clone(),
        kind: opt.kind,
        required: opt.required,
    }
}

/// Builds the declaration request for one command's metadata under the given
/// scope, preserving the order of the options.
pub fn declare(meta: &CommandMetadata, scope: CommandsScope) -> (r: CommandDeclaration)
    ensures
        r@ == declaration_of(meta@, scope),
{
    let mut declared: Vec<DeclaredOption> = Vec::new();
    let mut i: usize = 0;
    while i < meta.options.len()
        invariant
            i <= meta.options@.len(),
            declared_option_models(declared@) =~= option_models(meta.options@).take(i as int),
        decreases meta.options@.len() - i,
    {
        let mapped = declare_option(&meta.options[i]);
        let ghost before = declared@;
        declared.push(mapped);
        proof {
            let opts = option_models(meta.options@);
            assert(declared_option_models(declared@) =~= declared_option_models(before).push(
                mapped@,
            ));
            assert(opts.take(i as int + 1) =~= opts.take(i as int).push(opts[i as int]));
        }
        i += 1;
    }
    let r = CommandDeclaration {
        name: meta.name.clone(),
        description: meta.description.clone(),
        options: declared,
        scope,
    };
    proof {
        assert(option_models(meta.options@).take(meta.options@.len() as int) =~= option_models(
            meta.options@,
        ));
        assert(r@ =~= declaration_of(meta@, scope));
    }
    r
}

/// Drives the registration step: the declarations of all registered commands
/// are submitted one at a time, in registry order, never concurrently, because
/// the remote platform does not guarantee isolation between concurrent
/// declaration writes. A failed submission aborts the remaining sequence and
/// surfaces immediately.
#[derive(Debug)]
pub struct RegistrationProtocol {
    plan: Vec<CommandDeclaration>,
    submitted: usize,
    failed: bool,
}

impl RegistrationProtocol {
    /// The declarations to submit, in registry order.
    pub closed spec fn plan_model(&self) -> Seq<DeclarationModel> {
        self.plan@.map_values(|d: CommandDeclaration| d@)
    }

    /// How many declarations the platform has confirmed so far.
    pub closed spec fn submitted_count(&self) -> int {
        self.submitted as int
    }

    /// Whether a submission failed, aborting the remaining sequence.
    pub closed spec fn has_failed(&self) -> bool {
        self.failed
    }

    pub open spec fn wf(&self) -> bool {
        0 <= self.submitted_count() <= self.plan_model().len()
    }

    /// Plans the registration of every command in the registry: one
    /// declaration per command, in registry order, each under the given scope.
    pub fn new(registry: &Registry, scope: CommandsScope) -> (r: RegistrationProtocol)
        ensures
            r.wf(),
            r.plan_model().len() == registry.entries_model().len(),
            forall|i: int|
                0 <= i < r.plan_model().len() ==> #[trigger] r.plan_model()[i] == declaration_of(
                    registry.entries_model()[i],
                    scope,
                ),
            r.submitted_count() == 0,
            !r.has_failed(),
    {
        let mut plan: Vec<CommandDeclaration> = Vec::new();
        let mut i: usize = 0;
        let n = registry.len();
        while i < n
            invariant
                n == registry.entries_model().len(),
                i <= n,
                plan@.len() == i,
                forall|j: int|
                    0 <= j < i ==> (#[trigger] plan@[j])@ == declaration_of(
                        registry.entries_model()[j],
                        scope,
                    ),
            decreases n - i,
        {
            let d = declare(registry.get(i), scope);
            plan.push(d);
            i += 1;
        }
        RegistrationProtocol { plan, submitted: 0, failed: false }
    }

    /// The next declaration to submit: the first not yet confirmed, unless the
    /// sequence is complete or was aborted by a failure.
    pub fn next_declaration(&self) -> (r: Option<&CommandDeclaration>)
        requires
            self.wf(),
        ensures
            match r {
                Some(d) => !self.has_failed() && self.submitted_count() < self.plan_model().len()
                    && d@ == self.plan_model()[self.submitted_count()],
                None => self.has_failed() || self.submitted_count() == self.plan_model().len(),
            },
    {
        if self.failed || self.submitted >= self.plan.len() {
            None
        } else {
            Some(&self.plan[self.submitted])
        }
    }

    /// Records that the platform confirmed the declaration just submitted.
    pub fn record_success(&mut self)
        requires
            old(self).wf(),
            !old(self).has_failed(),
            old(self).submitted_count() < old(self).plan_model().len(),
        ensures
            final(self).wf(),
            final(self).plan_model() == old(self).plan_model(),
            final(self).submitted_count() == old(self).submitted_count() + 1,
            !final(self).has_failed(),
    {
        proof {
            assert(self.plan.len() == self.plan@.len());
        }
        self.submitted = self.submitted + 1;
    }

    /// Records that the platform rejected the declaration just submitted: the
    /// remaining sequence is aborted and the error surfaces to the caller.
    pub fn record_failure(&mut self)
        requires
            old(self).wf(),
        ensures
            final(self).wf(),
            final(self).plan_model() == old(self).plan_model(),
            final(self).submitted_count() == old(self).submitted_count(),
            final(self).has_failed(),
    {
        self.failed = true;
    }

    /// Whether every planned declaration was submitted and confirmed.
    pub fn is_complete(&self) -> (r: bool)
        ensures
            r == (!self.has_failed() && self.submitted_count() == self.plan_model().len()),
    {
        !self.failed && self.submitted == self.plan.len()
    }
}

/// Registering a sequence of commands under one community scope plans exactly
/// one declaration per command, sequentially in the commands' order, each
/// scoped to that community and named after its command.
pub proof fn lemma_guild_registration_sequence(entries: Seq<MetadataModel>, g: u64)
    ensures
        ({
            let plan = entries.map_values(
                |m: MetadataModel| declaration_of(m, CommandsScope::Guild(g)),
            );
            &&& plan.len() == entries.len()
            &&& forall|i: int|
                0 <= i < entries.len() ==> (#[trigger] plan[i]).scope == CommandsScope::Guild(g)
            &&& forall|i: int| 0 <= i < entries.len() ==> (#[trigger] plan[i]).name
                == entries[i].name
        }),
{
}

} // verus!
