//! The release build that runs under instrumentation: the arguments that
//! are forwarded to `cargo`, the environment of the child process, the
//! invocation itself, and what is shown of its output.

pub mod args;
pub mod args_proofs;
pub mod env;
pub mod invocation;
pub mod outcome;
pub mod relay;

pub use args::{parse_cargo_args, CargoArgs, OverriddenFlag};
pub use env::{compose_flags, rustflags_overlay, EnvOverlay};
pub use invocation::{
    plan_cargo_command, plan_with_flags, CommandPlan, NextStep, PendingInvocation,
    ProcessInvocation,
};
pub use outcome::{require_success, run_outcome, CommandError, ExecutionResult};
pub use relay::{relay_output, DiagnosticRecord};
