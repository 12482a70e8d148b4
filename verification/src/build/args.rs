//! Rewriting of the arguments that the caller wants to hand to `cargo`.
//!
//! Two flags are under the control of this crate and are taken out of the
//! caller's arguments: `--release`, and `--message-format` together with
//! the value behind it. `--target` is forwarded and remembered. Every other
//! token is forwarded as it is.

use vstd::prelude::*;

verus! {

/// The flag that asks for a release build.
pub open spec fn release_flag() -> Seq<char> {
    "--release"@
}

/// The flag that chooses the format of the diagnostics.
pub open spec fn message_format_flag() -> Seq<char> {
    "--message-format"@
}

/// The flag that names the target platform.
pub open spec fn target_flag() -> Seq<char> {
    "--target"@
}

/// The token at `i` is the value of a `--message-format` flag right before
/// it: the token before it is that flag, and is not itself such a value.
pub open spec fn is_format_value(args: Seq<Seq<char>>, i: int) -> bool
    decreases i,
{
    &&& 0 < i < args.len()
    &&& args[i - 1] == message_format_flag()
    &&& !is_format_value(args, i - 1)
}

/// The token at `i` is forwarded to `cargo`: it is neither one of the two
/// controlled flags nor the value of a `--message-format`.
pub open spec fn is_retained(args: Seq<Seq<char>>, i: int) -> bool {
    &&& 0 <= i < args.len()
    &&& !is_format_value(args, i)
    &&& args[i] != release_flag()
    &&& args[i] != message_format_flag()
}

/// The token at `i` is a `--target` flag that is read as a flag.
pub open spec fn names_target(args: Seq<Seq<char>>, i: int) -> bool {
    &&& 0 <= i < args.len()
    &&& !is_format_value(args, i)
    &&& args[i] == target_flag()
}

/// The forwarded tokens among the first `n` of `args`, in their order.
pub open spec fn retained_prefix(args: Seq<Seq<char>>, n: int) -> Seq<Seq<char>>
    decreases n,
{
    if n <= 0 {
        Seq::empty()
    } else if is_retained(args, n - 1) {
        retained_prefix(args, n - 1).push(args[n - 1])
    } else {
        retained_prefix(args, n - 1)
    }
}

/// The arguments that are forwarded to `cargo`.
pub open spec fn filtered_args(args: Seq<Seq<char>>) -> Seq<Seq<char>> {
    retained_prefix(args, args.len() as int)
}

/// The caller has chosen a target platform.
pub open spec fn has_explicit_target(args: Seq<Seq<char>>) -> bool {
    exists|i: int| #[trigger] names_target(args, i)
}

/// A flag of the caller that was taken out because this crate sets it.
#[derive(Debug, Copy, Clone, PartialEq, Eq, Structural)]
pub enum OverriddenFlag {
    Release,
    MessageFormat,
}

impl OverriddenFlag {
    /// The warning that tells the caller not to pass the flag.
    pub open spec fn warning_text(self) -> Seq<char> {
        match self {
            OverriddenFlag::Release => "Do not pass `--release` manually, it will be added automatically by `cargo-pgo`"@,
            OverriddenFlag::MessageFormat => "Do not pass `--message-format` manually, it will be added automatically by `cargo-pgo`"@,
        }
    }

    /// Returns the warning to log for this flag.
    pub fn warning(&self) -> (text: &'static str)
        ensures
            text@ == self.warning_text(),
    {
        match self {
            OverriddenFlag::Release => "Do not pass `--release` manually, it will be added automatically by `cargo-pgo`",
            OverriddenFlag::MessageFormat => "Do not pass `--message-format` manually, it will be added automatically by `cargo-pgo`",
        }
    }
}

/// The controlled flags met among the first `n` tokens of `args`, in their
/// order, one entry for each time that a flag was taken out.
pub open spec fn overridden_prefix(args: Seq<Seq<char>>, n: int) -> Seq<OverriddenFlag>
    decreases n,
{
    if n <= 0 {
        Seq::empty()
    } else if is_format_value(args, n - 1) {
        overridden_prefix(args, n - 1)
    } else if args[n - 1] == release_flag() {
        overridden_prefix(args, n - 1).push(OverriddenFlag::Release)
    } else if args[n - 1] == message_format_flag() {
        overridden_prefix(args, n - 1).push(OverriddenFlag::MessageFormat)
    } else {
        overridden_prefix(args, n - 1)
    }
}

/// The controlled flags that were taken out of `args`.
pub open spec fn overridden_flags(args: Seq<Seq<char>>) -> Seq<OverriddenFlag> {
    overridden_prefix(args, args.len() as int)
}

/// The caller's arguments after rewriting.
#[derive(Debug)]
pub struct CargoArgs {
    /// The arguments to forward, in the caller's order.
    pub filtered: Vec<String>,
    /// Whether the caller passed `--target`.
    pub contains_target: bool,
    /// The flags that were taken out, for the caller to be warned of.
    pub overridden: Vec<OverriddenFlag>,
}

/// The three flags are different tokens.
pub proof fn lemma_flags_differ()
    ensures
        release_flag() != message_format_flag(),
        release_flag() != target_flag(),
        message_format_flag() != target_flag(),
{
    reveal_strlit("--release");
    reveal_strlit("--message-format");
    reveal_strlit("--target");
    assert(message_format_flag().len() == 16);
    assert(target_flag().len() == 8);
}

/// Rewrites the caller's arguments in one pass from left to right.
///
/// `--release` is dropped. `--message-format` is dropped together with the
/// token behind it; where it is the last token, only the flag is there to
/// drop. `--target` is forwarded and noted. All other tokens are forwarded
/// unchanged and in their order.
pub fn parse_cargo_args(cargo_args: Vec<String>) -> (parsed: CargoArgs)
    ensures
        parsed.filtered.deep_view() == filtered_args(cargo_args.deep_view()),
        parsed.contains_target == has_explicit_target(cargo_args.deep_view()),
        parsed.overridden@ == overridden_flags(cargo_args.deep_view()),
{
    let release = String::from_str("--release");
    let message_format = String::from_str("--message-format");
    let target = String::from_str("--target");
    let ghost args = cargo_args.deep_view();
    let n = cargo_args.len();
    let mut filtered: Vec<String> = Vec::new();
    let mut contains_target = false;
    let mut overridden: Vec<OverriddenFlag> = Vec::new();
    let mut i: usize = 0;
    while i < n
        invariant
            n == cargo_args.len(),
            args == cargo_args.deep_view(),
            release@ == release_flag(),
            message_format@ == message_format_flag(),
            target@ == target_flag(),
            i <= n,
            !is_format_value(args, i as int),
            filtered.deep_view() == retained_prefix(args, i as int),
            contains_target == (exists|j: int| j < i && #[trigger] names_target(args, j)),
            overridden@ == overridden_prefix(args, i as int),
        decreases n - i,
    {
        let arg = &cargo_args[i];
        let ghost before = filtered.deep_view();
        proof {
            lemma_flags_differ();
        }
        if *arg == release {
            overridden.push(OverriddenFlag::Release);
            i = i + 1;
        } else if *arg == message_format {
            overridden.push(OverriddenFlag::MessageFormat);
            if n - i >= 2 {
                proof {
                    assert(!is_retained(args, i + 1));
                    assert(retained_prefix(args, i + 1) == before);
                    assert(overridden_prefix(args, i + 1) == overridden@);
                    assert(!names_target(args, i as int));
                    assert(!names_target(args, i + 1));
                }
                i = i + 2;
            } else {
                i = n;
            }
        } else {
            if *arg == target {
                contains_target = true;
                assert(names_target(args, i as int));
            }
            filtered.push(arg.clone());
            i = i + 1;
        }
    }
    CargoArgs { filtered, contains_target, overridden }
}

} // verus!
