//! What holds of the rewriting of the caller's arguments, on every input.

use crate::build::args::{
    filtered_args, has_explicit_target, is_format_value, is_retained, lemma_flags_differ,
    message_format_flag, names_target, overridden_flags, overridden_prefix, release_flag,
    retained_prefix, target_flag, OverriddenFlag,
};
use vstd::prelude::*;

verus! {

/// The positions of the forwarded tokens among the first `n` of `args`, in
/// rising order.
pub open spec fn retained_positions(args: Seq<Seq<char>>, n: int) -> Seq<int>
    decreases n,
{
    if n <= 0 {
        Seq::empty()
    } else if is_retained(args, n - 1) {
        retained_positions(args, n - 1).push(n - 1)
    } else {
        retained_positions(args, n - 1)
    }
}

/// `args` holds no `--message-format`.
pub open spec fn without_message_format(args: Seq<Seq<char>>) -> bool {
    forall|i: int| 0 <= i < args.len() ==> args[i] != message_format_flag()
}

/// The token `x` stands nowhere in `args` but, at most, at `at`.
pub open spec fn nowhere_but(args: Seq<Seq<char>>, x: Seq<char>, at: int) -> bool {
    forall|i: int| 0 <= i < args.len() && i != at ==> #[trigger] args[i] != x
}

/// `args` holds no `--release`.
pub open spec fn without_release(args: Seq<Seq<char>>) -> bool {
    forall|i: int| 0 <= i < args.len() ==> args[i] != release_flag()
}

proof fn lemma_positions(args: Seq<Seq<char>>, n: int)
    requires
        0 <= n <= args.len(),
    ensures
        retained_positions(args, n).len() == retained_prefix(args, n).len(),
        retained_positions(args, n).len() <= n,
        forall|k: int|
            0 <= k < retained_positions(args, n).len() ==> {
                &&& 0 <= #[trigger] retained_positions(args, n)[k] < n
                &&& is_retained(args, retained_positions(args, n)[k])
                &&& retained_prefix(args, n)[k] == args[retained_positions(args, n)[k]]
            },
        forall|k: int, l: int|
            0 <= k < l < retained_positions(args, n).len() ==> retained_positions(args, n)[k]
                < retained_positions(args, n)[l],
        forall|j: int|
            0 <= j < n && is_retained(args, j) ==> retained_positions(args, n).contains(j),
    decreases n,
{
    if n > 0 {
        lemma_positions(args, n - 1);
        let before = retained_positions(args, n - 1);
        let now = retained_positions(args, n);
        assert forall|j: int| 0 <= j < n && is_retained(args, j) implies now.contains(j) by {
            if j < n - 1 {
                let k = choose|k: int| 0 <= k < before.len() && before[k] == j;
                assert(now[k] == j);
            } else {
                assert(now[now.len() - 1] == j);
            }
        }
    }
}

/// The forwarded arguments are the caller's tokens at the retained
/// positions, which rise: no token is duplicated, none changes its place
/// relative to another, and every retained token is forwarded.
pub proof fn lemma_filtered_keeps_order(args: Seq<Seq<char>>)
    ensures
        ({
            let at = retained_positions(args, args.len() as int);
            let out = filtered_args(args);
            &&& at.len() == out.len()
            &&& forall|k: int|
                0 <= k < at.len() ==> is_retained(args, #[trigger] at[k]) && out[k] == args[at[k]]
            &&& forall|k: int, l: int| 0 <= k < l < at.len() ==> at[k] < at[l]
            &&& forall|j: int| is_retained(args, j) ==> at.contains(j)
        }),
{
    lemma_positions(args, args.len() as int);
}

/// A token is among the forwarded arguments exactly where it stands at a
/// retained position of the caller's.
pub proof fn lemma_forwarded_tokens(args: Seq<Seq<char>>, token: Seq<char>)
    ensures
        filtered_args(args).contains(token) <==> exists|j: int| #[trigger]
            is_retained(args, j) && args[j] == token,
{
    lemma_positions(args, args.len() as int);
    let out = filtered_args(args);
    let places = retained_positions(args, args.len() as int);
    if out.contains(token) {
        let k = choose|k: int| 0 <= k < out.len() && out[k] == token;
        assert(is_retained(args, places[k]) && args[places[k]] == token);
    }
    if exists|j: int| #[trigger] is_retained(args, j) && args[j] == token {
        let j = choose|j: int| #[trigger] is_retained(args, j) && args[j] == token;
        let k = places.index_of(j);
        assert(out[k] == token);
    }
}

/// Neither `--release` nor `--message-format` is ever forwarded, and no
/// more tokens are forwarded than the caller gave.
pub proof fn lemma_controlled_flags_removed(args: Seq<Seq<char>>)
    ensures
        !filtered_args(args).contains(release_flag()),
        !filtered_args(args).contains(message_format_flag()),
        filtered_args(args).len() <= args.len(),
{
    lemma_positions(args, args.len() as int);
    let out = filtered_args(args);
    let places = retained_positions(args, args.len() as int);
    if out.contains(release_flag()) {
        let k = choose|k: int| 0 <= k < out.len() && out[k] == release_flag();
        assert(is_retained(args, places[k]));
    }
    if out.contains(message_format_flag()) {
        let k = choose|k: int| 0 <= k < out.len() && out[k] == message_format_flag();
        assert(is_retained(args, places[k]));
    }
}

proof fn lemma_release_filter(args: Seq<Seq<char>>, n: int)
    requires
        0 <= n <= args.len(),
        without_message_format(args),
    ensures
        retained_prefix(args, n) == args.take(n).filter(|t: Seq<char>| t != release_flag()),
    decreases n,
{
    reveal(Seq::filter);
    if n > 0 {
        lemma_release_filter(args, n - 1);
        assert(args.take(n).drop_last() =~= args.take(n - 1));
    }
}

/// Where the caller passes no `--message-format`, the forwarded arguments
/// are the caller's without the `--release` tokens, and nothing else is
/// taken out.
pub proof fn lemma_only_release_removed(args: Seq<Seq<char>>)
    requires
        without_message_format(args),
    ensures
        filtered_args(args) == args.filter(|t: Seq<char>| t != release_flag()),
{
    lemma_release_filter(args, args.len() as int);
    assert(args.take(args.len() as int) =~= args);
}

/// The caller's arguments without the `width` tokens from `at` on.
pub open spec fn without_tokens(args: Seq<Seq<char>>, at: int, width: int) -> Seq<Seq<char>> {
    args.subrange(0, at) + args.subrange(at + width, args.len() as int)
}

/// The `width` tokens from `at` on can be cut out without a change to how
/// the tokens around them are read: none of them is forwarded, the first
/// is not the value of a flag before it, and the token behind the last is
/// not the value of a flag among them.
spec fn is_droppable(args: Seq<Seq<char>>, at: int, width: int) -> bool {
    &&& 0 <= at
    &&& 0 <= width
    &&& at + width <= args.len()
    &&& forall|j: int| at <= j < at + width ==> !is_retained(args, j)
    &&& !is_format_value(args, at)
    &&& !is_format_value(args, at + width)
}

proof fn lemma_values_before_cut(args: Seq<Seq<char>>, at: int, width: int, j: int)
    requires
        is_droppable(args, at, width),
        0 <= j <= at,
    ensures
        is_format_value(without_tokens(args, at, width), j) == is_format_value(args, j),
    decreases j,
{
    if j > 0 {
        lemma_values_before_cut(args, at, width, j - 1);
    }
}

proof fn lemma_values_behind_cut(args: Seq<Seq<char>>, at: int, width: int, j: int)
    requires
        is_droppable(args, at, width),
        at <= j,
    ensures
        is_format_value(without_tokens(args, at, width), j) == is_format_value(args, j + width),
    decreases j,
{
    if j == at {
        lemma_values_before_cut(args, at, width, at);
    } else if j < without_tokens(args, at, width).len() {
        lemma_values_behind_cut(args, at, width, j - 1);
    }
}

proof fn lemma_prefix_before_cut(args: Seq<Seq<char>>, at: int, width: int, n: int)
    requires
        is_droppable(args, at, width),
        0 <= n <= at,
    ensures
        retained_prefix(without_tokens(args, at, width), n) == retained_prefix(args, n),
    decreases n,
{
    if n > 0 {
        lemma_prefix_before_cut(args, at, width, n - 1);
        lemma_values_before_cut(args, at, width, n - 1);
    }
}

proof fn lemma_prefix_across_cut(args: Seq<Seq<char>>, at: int, width: int, n: int)
    requires
        is_droppable(args, at, width),
        at <= n <= at + width,
    ensures
        retained_prefix(args, n) == retained_prefix(args, at),
    decreases n,
{
    if n > at {
        lemma_prefix_across_cut(args, at, width, n - 1);
    }
}

proof fn lemma_prefix_behind_cut(args: Seq<Seq<char>>, at: int, width: int, n: int)
    requires
        is_droppable(args, at, width),
        at <= n <= args.len() - width,
    ensures
        retained_prefix(without_tokens(args, at, width), n) == retained_prefix(args, n + width),
    decreases n,
{
    if n == at {
        lemma_prefix_before_cut(args, at, width, at);
        lemma_prefix_across_cut(args, at, width, at + width);
    } else {
        lemma_prefix_behind_cut(args, at, width, n - 1);
        lemma_values_behind_cut(args, at, width, n - 1);
    }
}

/// A `--release` that is read as a flag is not forwarded, and what is
/// forwarded is what would be forwarded had the caller not passed it.
pub proof fn lemma_release_removed(args: Seq<Seq<char>>, at: int)
    requires
        0 <= at < args.len(),
        args[at] == release_flag(),
        !is_format_value(args, at),
    ensures
        !is_retained(args, at),
        !filtered_args(args).contains(release_flag()),
        filtered_args(args) == filtered_args(args.remove(at)),
{
    lemma_flags_differ();
    lemma_controlled_flags_removed(args);
    lemma_prefix_behind_cut(args, at, 1, args.len() - 1);
}

/// Where `--release` stands once, at `at`, and there is no
/// `--message-format`, the forwarded arguments are the caller's without
/// that one token: all others stay, in their order.
pub proof fn lemma_single_release_removed(args: Seq<Seq<char>>, at: int)
    requires
        0 <= at < args.len(),
        args[at] == release_flag(),
        nowhere_but(args, release_flag(), at),
        without_message_format(args),
    ensures
        filtered_args(args) == args.remove(at),
{
    lemma_release_removed(args, at);
    let rest = args.remove(at);
    assert(without_release(rest) && without_message_format(rest));
    lemma_without_controlled_flags(rest);
}

/// A `--message-format` that is read as a flag leaves together with the
/// token behind it: neither of the two is forwarded, the flag never and its
/// value not unless it stands somewhere else too, and what is forwarded is
/// what would be forwarded had the caller not passed the two.
pub proof fn lemma_message_format_pair_removed(args: Seq<Seq<char>>, at: int)
    requires
        0 <= at,
        at + 1 < args.len(),
        args[at] == message_format_flag(),
        !is_format_value(args, at),
    ensures
        !is_retained(args, at),
        !is_retained(args, at + 1),
        filtered_args(args) == filtered_args(without_tokens(args, at, 2)),
        !filtered_args(args).contains(message_format_flag()),
        nowhere_but(args, args[at + 1], at + 1) ==> !filtered_args(args).contains(args[at + 1]),
{
    assert(is_format_value(args, at + 1));
    lemma_prefix_behind_cut(args, at, 2, args.len() - 2);
    lemma_controlled_flags_removed(args);
    lemma_positions(args, args.len() as int);
    if nowhere_but(args, args[at + 1], at + 1) {
        let out = filtered_args(args);
        let places = retained_positions(args, args.len() as int);
        if out.contains(args[at + 1]) {
            let k = choose|k: int| 0 <= k < out.len() && out[k] == args[at + 1];
            assert(places[k] != at + 1);
        }
    }
}

proof fn lemma_untouched_prefix(args: Seq<Seq<char>>, n: int)
    requires
        0 <= n <= args.len(),
        without_release(args),
        without_message_format(args),
    ensures
        retained_prefix(args, n) == args.subrange(0, n),
        overridden_prefix(args, n) == Seq::<OverriddenFlag>::empty(),
    decreases n,
{
    if n > 0 {
        lemma_untouched_prefix(args, n - 1);
    }
}

/// Arguments that hold neither `--release` nor `--message-format` are
/// forwarded as they are, nothing is reported as taken out, and a target
/// counts as chosen exactly where `--target` is among them.
pub proof fn lemma_without_controlled_flags(args: Seq<Seq<char>>)
    requires
        without_release(args),
        without_message_format(args),
    ensures
        filtered_args(args) == args,
        overridden_flags(args).len() == 0,
        has_explicit_target(args) == args.contains(target_flag()),
{
    lemma_untouched_prefix(args, args.len() as int);
    lemma_target_detection(args);
}

/// A target counts as chosen only where `--target` is among the arguments,
/// and, where the caller passes no `--message-format`, wherever it is.
pub proof fn lemma_target_detection(args: Seq<Seq<char>>)
    ensures
        has_explicit_target(args) ==> args.contains(target_flag()),
        without_message_format(args) ==> has_explicit_target(args) == args.contains(
            target_flag(),
        ),
{
    if without_message_format(args) && args.contains(target_flag()) {
        let i = choose|i: int| 0 <= i < args.len() && args[i] == target_flag();
        assert(names_target(args, i));
    }
}

/// A `--target` that is read as a flag is forwarded, and so is the token
/// behind it unless that is one of the two controlled flags.
pub proof fn lemma_target_forwarded(args: Seq<Seq<char>>, at: int)
    requires
        names_target(args, at),
    ensures
        has_explicit_target(args),
        is_retained(args, at),
        filtered_args(args).contains(target_flag()),
        at + 1 < args.len() && args[at + 1] != release_flag() && args[at + 1]
            != message_format_flag() ==> is_retained(args, at + 1),
{
    lemma_flags_differ();
    assert(is_retained(args, at));
    lemma_forwarded_tokens(args, target_flag());
}

} // verus!
