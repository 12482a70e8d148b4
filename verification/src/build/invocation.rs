//! The `cargo` invocation that runs the build, and the steps that lead to
//! it.
//!
//! The invocation is planned here and carried out by the caller. Where the
//! caller's arguments name no target, the plan first asks for the default
//! target of the host: with an explicit `--target`, `cargo` applies the
//! compiler flags to the crate and not to its build scripts.

use crate::build::args::{
    filtered_args, has_explicit_target, message_format_flag, overridden_flags, parse_cargo_args,
    release_flag, target_flag, OverriddenFlag,
};
use crate::build::env::{
    composed_flags, rustflags_overlay, rustflags_variable, value_or_empty, EnvOverlay,
};
use crate::build::outcome::CommandError;
use crate::pgo::CargoCommand;
use vstd::prelude::*;

verus! {

/// The program that is started.
pub open spec fn driver() -> Seq<char> {
    "cargo"@
}

/// The format in which `cargo` is asked to report: one record per line,
/// with each diagnostic rendered for a terminal as well.
pub open spec fn diagnostic_format() -> Seq<char> {
    "json-diagnostic-rendered-ansi"@
}

/// The arguments that name the target, if one is to be named.
pub open spec fn target_args(target: Option<Seq<char>>) -> Seq<Seq<char>> {
    match target {
        Some(triple) => seq![target_flag(), triple],
        None => Seq::empty(),
    }
}

/// The target triple in `target`, as text.
pub open spec fn triple_of(target: Option<String>) -> Option<Seq<char>> {
    match target {
        Some(triple) => Some(triple@),
        None => None,
    }
}

/// The arguments of the invocation: the subcommand, the fixed flags, the
/// target where this crate supplies it, and the forwarded arguments.
pub open spec fn invocation_args(
    command: CargoCommand,
    target: Option<Seq<char>>,
    forwarded: Seq<Seq<char>>,
) -> Seq<Seq<char>> {
    seq![command.name(), release_flag(), message_format_flag(), diagnostic_format()] + target_args(
        target,
    ) + forwarded
}

/// The subcommand comes first and the fixed flags follow it. Then comes the
/// target, where this crate supplies one, and then the forwarded arguments,
/// all of them and in their order.
pub proof fn lemma_invocation_shape(
    command: CargoCommand,
    target: Option<Seq<char>>,
    forwarded: Seq<Seq<char>>,
)
    ensures
        ({
            let args = invocation_args(command, target, forwarded);
            let lead = if target is Some {
                6int
            } else {
                4int
            };
            &&& args.len() == lead + forwarded.len()
            &&& args[0] == command.name()
            &&& args[1] == release_flag()
            &&& args[2] == message_format_flag()
            &&& args[3] == diagnostic_format()
            &&& target matches Some(triple) ==> args[4] == target_flag() && args[5] == triple
            &&& args.subrange(lead, args.len() as int) == forwarded
        }),
{
    let args = invocation_args(command, target, forwarded);
    let lead = args.len() - forwarded.len();
    assert(args.subrange(lead, args.len() as int) =~= forwarded);
}

/// A child process to start: the program, its arguments, and the
/// variables to set on top of the parent's environment.
#[derive(Debug)]
pub struct ProcessInvocation {
    pub program: String,
    pub args: Vec<String>,
    pub env: EnvOverlay,
}

impl ProcessInvocation {
    /// This is the invocation of `cargo` for `command` with the given
    /// target, forwarded arguments and environment.
    pub open spec fn runs(
        &self,
        command: CargoCommand,
        target: Option<Seq<char>>,
        forwarded: Seq<Seq<char>>,
        env: Map<Seq<char>, Seq<char>>,
    ) -> bool {
        &&& self.program@ == driver()
        &&& self.args.deep_view() == invocation_args(command, target, forwarded)
        &&& self.env@ == env
    }
}

/// An invocation that lacks only the target.
#[derive(Debug)]
pub struct PendingInvocation {
    pub command: CargoCommand,
    pub forwarded: Vec<String>,
    pub env: EnvOverlay,
}

/// What the caller has to do next.
#[derive(Debug)]
pub enum NextStep {
    /// Start the process.
    Spawn(ProcessInvocation),
    /// Find the default target of the host, and hand it to
    /// [`PendingInvocation::resolve`].
    ResolveTarget(PendingInvocation),
}

/// The plan for one `cargo` command.
#[derive(Debug)]
pub struct CommandPlan {
    /// The flags of the caller that were taken out, to warn of.
    pub overridden: Vec<OverriddenFlag>,
    /// The step to take.
    pub step: NextStep,
}

fn assemble(
    command: CargoCommand,
    target: Option<String>,
    forwarded: Vec<String>,
    env: EnvOverlay,
) -> (invocation: ProcessInvocation)
    ensures
        invocation.runs(command, triple_of(target), forwarded.deep_view(), env@),
{
    let mut forwarded = forwarded;
    let ghost tail = forwarded.deep_view();
    let ghost named = triple_of(target);
    let mut args: Vec<String> = Vec::new();
    args.push(String::from_str(command.to_str()));
    args.push(String::from_str("--release"));
    args.push(String::from_str("--message-format"));
    args.push(String::from_str("json-diagnostic-rendered-ansi"));
    match target {
        Some(triple) => {
            args.push(String::from_str("--target"));
            args.push(triple);
        },
        None => {},
    }
    let ghost head = args.deep_view();
    assert(head =~= seq![
        command.name(),
        release_flag(),
        message_format_flag(),
        diagnostic_format(),
    ] + target_args(named));
    args.append(&mut forwarded);
    assert(args.deep_view() =~= head + tail);
    ProcessInvocation { program: String::from_str("cargo"), args, env }
}

impl PendingInvocation {
    /// Completes the invocation with the default target `triple`.
    pub fn with_target(self, triple: String) -> (invocation: ProcessInvocation)
        ensures
            invocation.runs(self.command, Some(triple@), self.forwarded.deep_view(), self.env@),
    {
        assemble(self.command, Some(triple), self.forwarded, self.env)
    }

    /// Takes the answer of the search for the default target: the triple,
    /// or the reason why none was found. With a triple the invocation is
    /// complete; without one the command fails before anything is started.
    pub fn resolve(self, found: Result<String, String>) -> (ready: Result<
        ProcessInvocation,
        CommandError,
    >)
        ensures
            match found {
                Ok(triple) => ready matches Ok(invocation) && invocation.runs(
                    self.command,
                    Some(triple@),
                    self.forwarded.deep_view(),
                    self.env@,
                ),
                Err(reason) => ready matches Err(error) && error == (CommandError::Configuration {
                    cause: reason,
                }),
            },
    {
        match found {
            Ok(triple) => Ok(self.with_target(triple)),
            Err(reason) => Err(CommandError::Configuration { cause: reason }),
        }
    }
}

/// Plans the run of `command` in release mode with the caller's arguments
/// and the variables in `env`.
///
/// The arguments are rewritten first. Where they name a target the
/// invocation is complete and no default target is asked for; where they
/// do not, the next step is to find one.
pub fn plan_cargo_command(command: CargoCommand, cargo_args: Vec<String>, env: EnvOverlay) -> (plan:
    CommandPlan)
    ensures
        plan.overridden@ == overridden_flags(cargo_args.deep_view()),
        match plan.step {
            NextStep::Spawn(invocation) => has_explicit_target(cargo_args.deep_view())
                && invocation.runs(command, None, filtered_args(cargo_args.deep_view()), env@),
            NextStep::ResolveTarget(pending) => !has_explicit_target(cargo_args.deep_view())
                && pending.command == command && pending.forwarded.deep_view() == filtered_args(
                cargo_args.deep_view(),
            ) && pending.env@ == env@,
        },
{
    let parsed = parse_cargo_args(cargo_args);
    let step = if parsed.contains_target {
        NextStep::Spawn(assemble(command, None, parsed.filtered, env))
    } else {
        NextStep::ResolveTarget(PendingInvocation { command, forwarded: parsed.filtered, env })
    };
    CommandPlan { overridden: parsed.overridden, step }
}

/// The environment that sets nothing but the compiler-flag variable, to
/// the flags in `current` with `added` behind them.
pub open spec fn flags_environment(current: Seq<char>, added: Seq<char>) -> Map<
    Seq<char>,
    Seq<char>,
> {
    Map::<Seq<char>, Seq<char>>::empty().insert(
        rustflags_variable(),
        composed_flags(current, added),
    )
}

/// Plans the run of `command` in release mode with `flags` handed to the
/// compiler. `current` is the value of the compiler-flag variable in the
/// parent's environment, `None` where it is unset; the child gets that
/// value with `flags` behind it.
pub fn plan_with_flags(
    command: CargoCommand,
    current: Option<String>,
    flags: &str,
    cargo_args: Vec<String>,
) -> (plan: CommandPlan)
    ensures
        plan.overridden@ == overridden_flags(cargo_args.deep_view()),
        match plan.step {
            NextStep::Spawn(invocation) => has_explicit_target(cargo_args.deep_view())
                && invocation.runs(
                command,
                None,
                filtered_args(cargo_args.deep_view()),
                flags_environment(value_or_empty(current), flags@),
            ),
            NextStep::ResolveTarget(pending) => !has_explicit_target(cargo_args.deep_view())
                && pending.command == command && pending.forwarded.deep_view() == filtered_args(
                cargo_args.deep_view(),
            ) && pending.env@ == flags_environment(value_or_empty(current), flags@),
        },
{
    plan_cargo_command(command, cargo_args, rustflags_overlay(current, flags))
}

} // verus!
