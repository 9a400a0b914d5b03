//! What holds of merged actions whatever the triggered rules are.

use crate::action::{fold_actions, merge, merge_message, merge_user, no_action, stacked, TakeActionView};
use crate::settings::{ActionsMessage, ActionsUser};
use vstd::prelude::*;
use vstd::seq_lib::{commutative_foldl, lemma_fold_left_permutation};

verus! {

/// Whether one of the actions asks for a ban.
pub open spec fn has_ban(candidates: Seq<TakeActionView>) -> bool {
    exists|i: int|
        0 <= i < candidates.len() && (#[trigger] candidates[i]).user == Some(ActionsUser::Ban)
}

/// The time-out of the first action that asks for one.
pub open spec fn first_time_out(candidates: Seq<TakeActionView>) -> Option<u64>
    decreases candidates.len(),
{
    if candidates.len() == 0 {
        None
    } else {
        match first_time_out(candidates.drop_last()) {
            Some(period) => Some(period),
            None => match candidates.last().user {
                Some(ActionsUser::TimeOut(period)) => Some(period),
                _ => None,
            },
        }
    }
}

/// One step of merging the message actions alone.
pub open spec fn message_step() -> spec_fn(Option<ActionsMessage>, TakeActionView) -> Option<
    ActionsMessage,
> {
    |acc: Option<ActionsMessage>, new: TakeActionView| merge_message(acc, new.message)
}

/// One step of merging the user actions alone.
pub open spec fn user_step(stack_time_outs: bool) -> spec_fn(
    Option<ActionsUser>,
    TakeActionView,
) -> Option<ActionsUser> {
    |acc: Option<ActionsUser>, new: TakeActionView| merge_user(acc, new.user, stack_time_outs)
}

/// Merging one more action into the merged actions of `candidates` is the same
/// as merging all of them.
pub proof fn lemma_fold_push(candidates: Seq<TakeActionView>, new: TakeActionView, stack_time_outs: bool)
    ensures
        fold_actions(candidates.push(new), stack_time_outs) == merge(
            fold_actions(candidates, stack_time_outs),
            new,
            stack_time_outs,
        ),
        fold_actions(Seq::empty(), stack_time_outs) == no_action(),
{
    assert(candidates.push(new).drop_last() =~= candidates);
}

/// The message action and the user action of merged actions are each merged
/// on their own: neither depends on the other, nor on the reasons.
pub proof fn lemma_fold_by_parts(candidates: Seq<TakeActionView>, stack_time_outs: bool)
    ensures
        fold_actions(candidates, stack_time_outs).message == candidates.fold_left(
            None,
            message_step(),
        ),
        fold_actions(candidates, stack_time_outs).user == candidates.fold_left(
            None,
            user_step(stack_time_outs),
        ),
    decreases candidates.len(),
{
    if candidates.len() > 0 {
        lemma_fold_by_parts(candidates.drop_last(), stack_time_outs);
    }
}

/// The reasons that the actions give, in the order of the actions.
pub open spec fn reasons_of(candidates: Seq<TakeActionView>) -> Seq<Seq<char>>
    decreases candidates.len(),
{
    if candidates.len() == 0 {
        Seq::empty()
    } else {
        match candidates.last().report {
            Some(reason) => reasons_of(candidates.drop_last()).push(reason),
            None => reasons_of(candidates.drop_last()),
        }
    }
}

/// The reasons as a list of bullets, one line each; nothing where there is
/// no reason.
pub open spec fn bullet_list(reasons: Seq<Seq<char>>) -> Option<Seq<char>>
    decreases reasons.len(),
{
    if reasons.len() == 0 {
        None
    } else {
        match bullet_list(reasons.drop_last()) {
            None => Some("- "@ + reasons.last()),
            Some(lines) => Some(lines + "\n- "@ + reasons.last()),
        }
    }
}

/// The reasons of the merged action are the reasons of the rules, each as a
/// bullet on a line of its own, in the order in which the rules were merged.
pub proof fn lemma_reasons_in_order(candidates: Seq<TakeActionView>, stack_time_outs: bool)
    ensures
        fold_actions(candidates, stack_time_outs).report == bullet_list(reasons_of(candidates)),
    decreases candidates.len(),
{
    if candidates.len() > 0 {
        lemma_reasons_in_order(candidates.drop_last(), stack_time_outs);
        if let Some(reason) = candidates.last().report {
            let rest = reasons_of(candidates.drop_last());
            assert(rest.push(reason).drop_last() =~= rest);
        }
    }
}

/// Where one of the rules asks for a ban, the merged action bans, wherever
/// that rule stands among the others.
pub proof fn lemma_ban_dominates(candidates: Seq<TakeActionView>, stack_time_outs: bool)
    requires
        has_ban(candidates),
    ensures
        fold_actions(candidates, stack_time_outs).user == Some(ActionsUser::Ban),
    decreases candidates.len(),
{
    let i = choose|i: int|
        0 <= i < candidates.len() && (#[trigger] candidates[i]).user == Some(ActionsUser::Ban);
    if i < candidates.len() - 1 {
        assert(candidates.drop_last()[i] == candidates[i]);
        lemma_ban_dominates(candidates.drop_last(), stack_time_outs);
    }
}

/// A time-out followed by a ban gives a ban, and so does a ban followed by a
/// time-out, with or without stacking.
pub proof fn lemma_ban_after_or_before_time_out(period: u64, stack_time_outs: bool)
    ensures
        merge_user(
            merge_user(None, Some(ActionsUser::TimeOut(period)), stack_time_outs),
            Some(ActionsUser::Ban),
            stack_time_outs,
        ) == Some(ActionsUser::Ban),
        merge_user(
            merge_user(None, Some(ActionsUser::Ban), stack_time_outs),
            Some(ActionsUser::TimeOut(period)),
            stack_time_outs,
        ) == Some(ActionsUser::Ban),
{
}

/// Two time-outs add up where stacking is on, as far as the sum fits, and the
/// first one stays where stacking is off.
pub proof fn lemma_time_out_stacking(first: u64, second: u64)
    ensures
        merge_user(
            merge_user(None, Some(ActionsUser::TimeOut(first)), true),
            Some(ActionsUser::TimeOut(second)),
            true,
        ) == Some(ActionsUser::TimeOut(stacked(first, second))),
        first + second <= u64::MAX ==> stacked(first, second) == first + second,
        merge_user(
            merge_user(None, Some(ActionsUser::TimeOut(first)), false),
            Some(ActionsUser::TimeOut(second)),
            false,
        ) == Some(ActionsUser::TimeOut(first)),
{
}

/// Without stacking and without a ban, the merged user action is the first
/// time-out that a rule asks for.
pub proof fn lemma_first_time_out_stays(candidates: Seq<TakeActionView>)
    requires
        !has_ban(candidates),
    ensures
        fold_actions(candidates, false).user == match first_time_out(candidates) {
            Some(period) => Some(ActionsUser::TimeOut(period)),
            None => None,
        },
    decreases candidates.len(),
{
    if candidates.len() > 0 {
        let rest = candidates.drop_last();
        assert forall|i: int| 0 <= i < rest.len() implies (#[trigger] rest[i]).user != Some(
            ActionsUser::Ban,
        ) by {
            assert(candidates[i] == rest[i]);
        }
        lemma_first_time_out_stays(rest);
        assert(candidates[candidates.len() - 1].user != Some(ActionsUser::Ban));
    }
}

/// Whether a ban is asked for does not depend on the order of the rules.
proof fn lemma_has_ban_permutation(first: Seq<TakeActionView>, second: Seq<TakeActionView>)
    requires
        first.to_multiset() == second.to_multiset(),
        has_ban(first),
    ensures
        has_ban(second),
{
    broadcast use vstd::seq_lib::group_to_multiset_ensures;

    let i = choose|i: int|
        0 <= i < first.len() && (#[trigger] first[i]).user == Some(ActionsUser::Ban);
    assert(first.contains(first[i]));
    assert(first.to_multiset().count(first[i]) > 0);
    assert(second.contains(first[i]));
    let j = choose|j: int| 0 <= j < second.len() && second[j] == first[i];
    assert(second[j].user == Some(ActionsUser::Ban));
}

/// The order in which the triggered rules are merged changes neither the
/// message action nor the user action, only the order of the reasons. Where
/// time-outs do not stack and no rule asks for a ban, the first time-out
/// stays, so there the two orders must begin with the same time-out.
pub proof fn lemma_merge_order_independent(
    first: Seq<TakeActionView>,
    second: Seq<TakeActionView>,
    stack_time_outs: bool,
)
    requires
        first.to_multiset() == second.to_multiset(),
        stack_time_outs || has_ban(first) || first_time_out(first) == first_time_out(second),
    ensures
        fold_actions(first, stack_time_outs).message == fold_actions(
            second,
            stack_time_outs,
        ).message,
        fold_actions(first, stack_time_outs).user == fold_actions(second, stack_time_outs).user,
{
    lemma_fold_by_parts(first, stack_time_outs);
    lemma_fold_by_parts(second, stack_time_outs);
    assert(commutative_foldl(message_step())) by {
        let step = message_step();
        assert forall|x: TakeActionView, y: TakeActionView, v: Option<ActionsMessage>| #[trigger]
            step(step(v, x), y) == step(step(v, y), x) by {
            assert(x.message is Some && y.message is Some ==> x.message->0 == y.message->0);
        }
    }
    lemma_fold_left_permutation(first, second, message_step(), None);
    if stack_time_outs {
        assert(commutative_foldl(user_step(true))) by {
            let step = user_step(true);
            assert forall|x: TakeActionView, y: TakeActionView, v: Option<ActionsUser>| #[trigger]
                step(step(v, x), y) == step(step(v, y), x) by {}
        }
        lemma_fold_left_permutation(first, second, user_step(true), None);
    } else if has_ban(first) {
        lemma_has_ban_permutation(first, second);
        lemma_ban_dominates(first, false);
        lemma_ban_dominates(second, false);
    } else {
        if has_ban(second) {
            lemma_has_ban_permutation(second, first);
        }
        lemma_first_time_out_stays(first);
        lemma_first_time_out_stays(second);
    }
}

} // verus!
