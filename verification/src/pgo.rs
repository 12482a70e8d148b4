//! The `cargo` subcommands that can be run under instrumentation, and the
//! hint for a user who lacks `llvm-profdata`.

use crate::style::{blue_code, escape, lemma_plain_text_painted, paint_blue, reset_code};
use vstd::prelude::*;

verus! {

/// The command that installs `llvm-profdata` through `rustup`.
pub open spec fn install_command() -> Seq<char> {
    "rustup component add llvm-tools-preview"@
}

/// The hint that tells the user how to get `llvm-profdata`, around the
/// installation command as it is to be shown.
pub open spec fn install_hint(command: Seq<char>) -> Seq<char> {
    "Try installing `llvm-profdata` using `"@ + command
        + "` or build LLVM manually and add its `bin` directory to PATH."@
}

/// Builds the installation hint around `command`, the installation command
/// in the form in which the terminal is to show it.
pub fn install_hint_around(command: &str) -> (hint: String)
    ensures
        hint@ == install_hint(command@),
{
    let mut hint = String::from_str("Try installing `llvm-profdata` using `");
    hint.append(command);
    hint.append("` or build LLVM manually and add its `bin` directory to PATH.");
    hint
}

/// Returns the hint that is shown when `llvm-profdata` cannot be found. The
/// installation command in it is blue where the process writes colours.
pub fn llvm_profdata_install_hint() -> (hint: String)
    ensures
        hint@ == install_hint(install_command()) || hint@ == install_hint(
            blue_code() + install_command() + reset_code(),
        ),
{
    let command = "rustup component add llvm-tools-preview";
    proof {
        reveal_strlit("rustup component add llvm-tools-preview");
        assert(!command@.contains(escape())) by {
            assert forall|i: int| 0 <= i < command@.len() implies command@[i] != escape() by {}
        }
        lemma_plain_text_painted(blue_code(), command@);
    }
    let shown = paint_blue(command);
    install_hint_around(shown.as_str())
}

/// The `cargo` subcommand that an invocation runs.
#[derive(Debug, Copy, Clone, PartialEq, Eq, Structural)]
pub enum CargoCommand {
    Build,
    Test,
    Run,
}

impl CargoCommand {
    /// The subcommand token that `cargo` expects for this command.
    pub open spec fn name(self) -> Seq<char> {
        match self {
            CargoCommand::Build => "build"@,
            CargoCommand::Test => "test"@,
            CargoCommand::Run => "run"@,
        }
    }

    /// Returns the subcommand token: `build`, `test` or `run`.
    pub fn to_str(&self) -> (token: &'static str)
        ensures
            token@ == self.name(),
    {
        match self {
            CargoCommand::Build => "build",
            CargoCommand::Test => "test",
            CargoCommand::Run => "run",
        }
    }
}

/// Each command has a subcommand token of its own.
pub proof fn lemma_names_differ(one: CargoCommand, other: CargoCommand)
    ensures
        one.name() == other.name() <==> one == other,
{
    reveal_strlit("build");
    reveal_strlit("test");
    reveal_strlit("run");
    assert("build"@.len() == 5);
    assert("test"@.len() == 4);
    assert("run"@.len() == 3);
}

} // verus!
