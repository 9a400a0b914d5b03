//! Who is exempt from moderation, which rules a message breaks, and the one
//! action that its broken rules add up to.

use crate::action::{fold_actions, merge, no_action, TakeAction, TakeActionView};
use crate::message::{Message, MessageView};
use crate::plugin::Plugin;
use crate::settings::{ActionsUser, PluginSettings, PluginSettingsAttachmentSpam, PluginSettingsBypass};
use crate::text::{decimal, push_decimal};
use vstd::prelude::*;

verus! {

/// Whether an author with these roles is exempt: the author is listed, or one
/// of the roles is. Without a list nobody is exempt, and an author without a
/// membership has no role.
pub open spec fn is_exempt(
    bypass: Option<PluginSettingsBypass>,
    author_id: u64,
    roles: Option<Seq<u64>>,
) -> bool {
    match bypass {
        None => false,
        Some(lists) => lists.users@.contains(author_id) || match roles {
            None => false,
            Some(roles) => exists|i: int|
                0 <= i < roles.len() && lists.roles@.contains(#[trigger] roles[i]),
        },
    }
}

/// Whether the rule against attachment spam triggers: the message has no text
/// and at least `count` attachments.
pub open spec fn attachment_spam_triggers(count: usize, message: MessageView) -> bool {
    message.content.len() == 0 && message.attachments.len() >= count
}

/// The reason that the rule against attachment spam gives.
pub open spec fn attachment_spam_reason(attachment_count: nat) -> Seq<char> {
    "Attachment spam ("@ + decimal(attachment_count) + "), without message content"@
}

/// What the rule against attachment spam asks for on `message`, if anything.
/// A rule whose report is switched off still asks for its actions.
pub open spec fn spec_attachment_spam(
    rule: PluginSettingsAttachmentSpam,
    message: MessageView,
) -> Option<TakeActionView> {
    if attachment_spam_triggers(rule.count, message) {
        Some(
            TakeActionView {
                report: if rule.actions.report {
                    Some(attachment_spam_reason(message.attachments.len()))
                } else {
                    None
                },
                message: rule.actions.message,
                user: rule.actions.user,
            },
        )
    } else {
        None
    }
}

/// The actions of the rules that `message` breaks, in the order in which the
/// rules are evaluated.
pub open spec fn candidates(settings: PluginSettings, message: MessageView) -> Seq<TakeActionView> {
    match settings.validations.attachment_spam {
        None => Seq::empty(),
        Some(rule) => match spec_attachment_spam(rule, message) {
            None => Seq::empty(),
            Some(candidate) => seq![candidate],
        },
    }
}

/// The one action taken on `message`: none for an exempt author, otherwise
/// the merged actions of the rules that the message breaks.
pub open spec fn consolidated(settings: PluginSettings, message: MessageView) -> TakeActionView {
    if is_exempt(settings.bypass, message.author_id, message.member_roles) {
        no_action()
    } else {
        fold_actions(candidates(settings, message), settings.stack_time_outs)
    }
}

/// Whether `id` is among `ids`.
fn listed(ids: &Vec<u64>, id: u64) -> (found: bool)
    ensures
        found == ids@.contains(id),
{
    let mut i: usize = 0;
    while i < ids.len()
        invariant
            i <= ids.len(),
            forall|j: int| 0 <= j < i ==> ids@[j] != id,
        decreases ids.len() - i,
    {
        if ids[i] == id {
            return true;
        }
        i += 1;
    }
    false
}

/// Whether one of `roles` is among `ids`.
fn any_listed(ids: &Vec<u64>, roles: &Vec<u64>) -> (found: bool)
    ensures
        found == exists|i: int| 0 <= i < roles@.len() && ids@.contains(#[trigger] roles@[i]),
{
    let mut i: usize = 0;
    while i < roles.len()
        invariant
            i <= roles.len(),
            forall|j: int| 0 <= j < i ==> !ids@.contains(#[trigger] roles@[j]),
        decreases roles.len() - i,
    {
        if listed(ids, roles[i]) {
            return true;
        }
        i += 1;
    }
    false
}

impl Plugin {
    /// Whether the author of `message` is exempt from moderation.
    pub fn bypass(&self, message: &Message) -> (exempt: bool)
        ensures
            exempt == is_exempt(self.settings.bypass, message@.author_id, message@.member_roles),
    {
        if let Some(lists) = &self.settings.bypass {
            if listed(&lists.users, message.author_id) {
                return true;
            }
            if let Some(roles) = &message.member_roles {
                let found = any_listed(&lists.roles, roles);
                assert(message@.member_roles->0 == roles@);
                return found;
            }
        }
        false
    }

    /// Evaluates the rule against attachment spam on `message`.
    pub fn attachment_spam(
        attachment_spam: &PluginSettingsAttachmentSpam,
        message: &Message,
    ) -> (candidate: Option<TakeAction>)
        ensures
            match candidate {
                Some(action) => Some(action@),
                None => None,
            } == spec_attachment_spam(*attachment_spam, message@),
            candidate is Some <==> attachment_spam_triggers(attachment_spam.count, message@),
    {
        if !message.content.as_str().is_empty() {
            return None;
        }
        let attachment_count = message.attachments.len();
        if attachment_count >= attachment_spam.count {
            let report = if attachment_spam.actions.report {
                let mut reason = String::from_str("Attachment spam (");
                push_decimal(&mut reason, attachment_count as u64);
                reason.append("), without message content");
                Some(reason)
            } else {
                None
            };
            return Some(
                TakeAction {
                    report,
                    message: attachment_spam.actions.message,
                    user: attachment_spam.actions.user,
                },
            );
        }
        None
    }

    /// Merges the action of one more triggered rule into `take_action`,
    /// which holds the merged actions of the rules evaluated before.
    pub fn update_take_action(&self, take_action: &mut TakeAction, new_take_action: TakeAction)
        ensures
            final(take_action)@ == merge(
                old(take_action)@,
                new_take_action@,
                self.settings.stack_time_outs,
            ),
    {
        if let Some(new_report) = new_take_action.report {
            let merged = match take_action.report.take() {
                Some(report) => report.concat("\n- ").concat(new_report.as_str()),
                None => String::from_str("- ").concat(new_report.as_str()),
            };
            take_action.report = Some(merged);
        }
        if take_action.message.is_none() {
            take_action.message = new_take_action.message;
        }
        if let Some(new_user_action) = new_take_action.user {
            take_action.user = match take_action.user {
                None => Some(new_user_action),
                Some(ActionsUser::Ban) => Some(ActionsUser::Ban),
                Some(ActionsUser::TimeOut(period)) => match new_user_action {
                    ActionsUser::Ban => Some(ActionsUser::Ban),
                    ActionsUser::TimeOut(new_period) => Some(
                        ActionsUser::TimeOut(
                            if self.settings.stack_time_outs {
                                period.saturating_add(new_period)
                            } else {
                                period
                            },
                        ),
                    ),
                },
            };
        }
    }

    /// Decides what is done about `message`: nothing where its author is
    /// exempt, otherwise what the rules that it breaks ask for, merged into
    /// one action.
    pub fn consolidate(&self, message: &Message) -> (take_action: TakeAction)
        ensures
            take_action@ == consolidated(self.settings, message@),
            is_exempt(self.settings.bypass, message@.author_id, message@.member_roles)
                ==> take_action@ == no_action(),
            candidates(self.settings, message@).len() == 0 ==> take_action@ == no_action(),
    {
        let mut take_action = TakeAction::none();
        if self.bypass(message) {
            return take_action;
        }
        if let Some(attachment_spam) = &self.settings.validations.attachment_spam {
            if let Some(new_take_action) = Plugin::attachment_spam(attachment_spam, message) {
                proof {
                    let only = seq![new_take_action@];
                    assert(only.drop_last() =~= Seq::empty());
                    reveal_with_fuel(Seq::fold_left, 2);
                }
                self.update_take_action(&mut take_action, new_take_action);
            }
        }
        take_action
    }
}

} // verus!
