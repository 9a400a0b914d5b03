//! The action taken on a message, and how the actions of several rules merge
//! into one.

use crate::message::opt_view;
use crate::settings::{ActionsMessage, ActionsUser};
use vstd::prelude::*;

verus! {

/// What one rule asks for, or what all triggered rules together ask for.
#[derive(Debug, PartialEq, Eq)]
pub struct TakeAction {
    /// The reasons, as text for the moderators.
    pub report: Option<String>,
    pub message: Option<ActionsMessage>,
    pub user: Option<ActionsUser>,
}

/// The mathematical value of a [`TakeAction`].
pub struct TakeActionView {
    pub report: Option<Seq<char>>,
    pub message: Option<ActionsMessage>,
    pub user: Option<ActionsUser>,
}

impl View for TakeAction {
    type V = TakeActionView;

    open spec fn view(&self) -> TakeActionView {
        TakeActionView { report: opt_view(self.report), message: self.message, user: self.user }
    }
}

/// The action that does nothing.
pub open spec fn no_action() -> TakeActionView {
    TakeActionView { report: None, message: None, user: None }
}

/// The reasons so far with one more: every reason is a bullet on a line of
/// its own, in the order in which the rules were evaluated.
pub open spec fn merge_report(acc: Option<Seq<char>>, new: Option<Seq<char>>) -> Option<Seq<char>> {
    match new {
        None => acc,
        Some(reason) => match acc {
            None => Some("- "@ + reason),
            Some(text) => Some(text + "\n- "@ + reason),
        },
    }
}

/// The first rule that asks for a message action decides it.
pub open spec fn merge_message(
    acc: Option<ActionsMessage>,
    new: Option<ActionsMessage>,
) -> Option<ActionsMessage> {
    if acc is None {
        new
    } else {
        acc
    }
}

/// The sum of two time-outs, held at the largest value that fits.
pub open spec fn stacked(first: u64, second: u64) -> u64 {
    if first + second <= u64::MAX {
        (first + second) as u64
    } else {
        u64::MAX
    }
}

/// The user action so far with one more. A ban outweighs every time-out,
/// whichever came first. Two time-outs add up where `stack_time_outs` is set;
/// otherwise the first one stays.
pub open spec fn merge_user(
    acc: Option<ActionsUser>,
    new: Option<ActionsUser>,
    stack_time_outs: bool,
) -> Option<ActionsUser> {
    match (acc, new) {
        (_, None) => acc,
        (None, Some(_)) => new,
        (Some(ActionsUser::Ban), Some(_)) => acc,
        (Some(ActionsUser::TimeOut(_)), Some(ActionsUser::Ban)) => new,
        (Some(ActionsUser::TimeOut(first)), Some(ActionsUser::TimeOut(second))) => Some(
            ActionsUser::TimeOut(
                if stack_time_outs {
                    stacked(first, second)
                } else {
                    first
                },
            ),
        ),
    }
}

/// The merged action of `acc`, which stands for the rules evaluated so far,
/// and `new`, the action of the next rule.
pub open spec fn merge(acc: TakeActionView, new: TakeActionView, stack_time_outs: bool) -> TakeActionView {
    TakeActionView {
        report: merge_report(acc.report, new.report),
        message: merge_message(acc.message, new.message),
        user: merge_user(acc.user, new.user, stack_time_outs),
    }
}

/// The action that is left when the actions of all triggered rules, in the
/// order of their evaluation, have been merged into the action that does nothing.
pub open spec fn fold_actions(candidates: Seq<TakeActionView>, stack_time_outs: bool) -> TakeActionView {
    candidates.fold_left(no_action(), |acc: TakeActionView, new: TakeActionView| merge(acc, new, stack_time_outs))
}

impl TakeAction {
    /// The action that does nothing.
    pub fn none() -> (r: TakeAction)
        ensures
            r@ == no_action(),
    {
        TakeAction { report: None, message: None, user: None }
    }
}

} // verus!
