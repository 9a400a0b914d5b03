//! What holds of every moderated message, whatever the settings.

use crate::action::{no_action, TakeActionView};
use crate::executor::{
    member_target, message_stage, report_stage, resumed, spec_delete_message, PendingCallView,
    ProgressView,
};
use crate::message::MessageView;
use crate::outcome::{nothing_done, outcome_of, ExecutionReportView, Stage, StepOutcomeView};
use crate::platform::embed_within_limits;
use crate::plugin::validated;
use crate::report::{report_description, report_embed, url_lines};
use crate::requests::RequestsView;
use crate::rules::{
    attachment_spam_reason, candidates, consolidated, is_exempt, spec_attachment_spam,
};
use crate::settings::{
    ActionsMessage, ActionsUser, PluginSettings, PluginSettingsAttachmentSpam,
    PluginSettingsValidations,
};
use crate::text::decimal;
use vstd::prelude::*;

verus! {

/// The place of a step in the fixed order of the steps.
pub open spec fn stage_rank(stage: Stage) -> int {
    match stage {
        Stage::Message => 0,
        Stage::User => 1,
        Stage::Report => 2,
    }
}

/// A message of an exempt author gets no action and no request, whatever the
/// rules are and whatever the message holds.
pub proof fn lemma_exempt_author_is_left_alone(
    settings: PluginSettings,
    message: MessageView,
    now: u64,
    accepted: bool,
)
    requires
        is_exempt(settings.bypass, message.author_id, message.member_roles),
    ensures
        consolidated(settings, message) == no_action(),
        validated(settings, message, now, accepted) == ProgressView::Finished(Ok(nothing_done())),
{
}

/// A message that breaks no rule gets no action, no request and no notice:
/// its moderation ends at once, with every step skipped.
pub proof fn lemma_no_broken_rule_no_request(
    settings: PluginSettings,
    message: MessageView,
    now: u64,
    accepted: bool,
)
    requires
        candidates(settings, message).len() == 0,
    ensures
        consolidated(settings, message) == no_action(),
        validated(settings, message, now, accepted) == ProgressView::Finished(Ok(nothing_done())),
{
}

/// The first request of an action belongs to the first step that the action
/// asks for, and nothing is on record before it but requests that could not
/// be built.
pub proof fn lemma_first_request(
    settings: PluginSettings,
    message: MessageView,
    now: u64,
    accepted: bool,
)
    ensures
        validated(settings, message, now, accepted) matches ProgressView::Call(first) ==> {
            &&& first.take_action == consolidated(settings, message)
            &&& first.message == message
            &&& first.outcomes.message is Skipped
            &&& first.outcomes.report is Skipped
            &&& !(first.outcomes.user is Succeeded)
            &&& first.stage == Stage::Message <==> first.take_action.message is Some
        },
{
}

/// The steps are never taken out of order: the request that follows an
/// answer belongs to a later step of the same action on the same message.
/// The answer itself is on record, and nothing that was on record is lost.
pub proof fn lemma_steps_keep_their_order(
    settings: PluginSettings,
    pending: PendingCallView,
    result: Result<(), Seq<char>>,
    now: u64,
    accepted: bool,
)
    ensures
        resumed(settings, pending, result, now, accepted) matches ProgressView::Call(next) ==> {
            &&& stage_rank(next.stage) > stage_rank(pending.stage)
            &&& next.take_action == pending.take_action
            &&& next.message == pending.message
            &&& pending.stage == Stage::Message ==> next.outcomes.message == outcome_of(result)
            &&& pending.stage == Stage::User ==> next.outcomes.user == outcome_of(result)
                && next.outcomes.message == pending.outcomes.message
        },
{
}

/// A failed request about the message does not stop the step that acts on
/// the author: the same request follows a failure as follows a success.
pub proof fn lemma_failed_step_does_not_stop_the_next(
    settings: PluginSettings,
    pending: PendingCallView,
    one: Result<(), Seq<char>>,
    other: Result<(), Seq<char>>,
    now: u64,
    accepted: bool,
)
    requires
        pending.stage == Stage::Message,
        resumed(settings, pending, one, now, accepted) matches ProgressView::Call(next)
            && next.stage == Stage::User,
    ensures
        resumed(settings, pending, other, now, accepted) matches ProgressView::Call(next)
            && next.stage == Stage::User && next.request == resumed(
            settings,
            pending,
            one,
            now,
            accepted,
        )->Call_0.request,
{
}

/// Only the notice to the moderators can fail an action as a whole: where an
/// action ends in failure, the failed step is the notice, and its error is
/// the one on record.
pub proof fn lemma_only_the_notice_fails_the_action(
    settings: PluginSettings,
    pending: PendingCallView,
    result: Result<(), Seq<char>>,
    message: MessageView,
    now: u64,
    accepted: bool,
)
    ensures
        resumed(settings, pending, result, now, accepted) matches ProgressView::Finished(
            Err(failure),
        ) ==> failure.stage == Stage::Report && failure.outcomes.report
            == StepOutcomeView::Failed(failure.error),
        validated(settings, message, now, accepted) matches ProgressView::Finished(Err(failure))
            ==> failure.stage == Stage::Report && failure.outcomes.report
            == StepOutcomeView::Failed(failure.error),
{
}

/// The notice is requested exactly where the action holds reasons, a channel
/// for the moderators is configured, and the notice keeps the limits of the
/// platform, however the steps before it ended.
pub proof fn lemma_notice_is_requested(
    settings: PluginSettings,
    take_action: TakeActionView,
    message: MessageView,
    outcomes: ExecutionReportView,
    now: u64,
)
    ensures
        report_stage(settings, take_action, message, outcomes, now) is Call <==> {
            &&& take_action.report is Some
            &&& settings.automod_channel_id != 0
            &&& embed_within_limits(
                report_embed(take_action.report->0, take_action, outcomes, message, now),
            )
        },
        report_stage(settings, take_action, message, outcomes, now) matches ProgressView::Call(
            pending,
        ) ==> {
            &&& pending.stage == Stage::Report
            &&& pending.request matches RequestsView::CreateMessage { channel_id, embed, .. }
            &&& channel_id == settings.automod_channel_id
            &&& embed == report_embed(take_action.report->0, take_action, outcomes, message, now)
        },
{
}

/// The outcomes once the message and its author were dealt with and the
/// notice is still to come.
pub open spec fn both_actions_done() -> ExecutionReportView {
    ExecutionReportView {
        message: StepOutcomeView::Succeeded,
        user: StepOutcomeView::Succeeded,
        report: StepOutcomeView::Skipped,
    }
}

/// The outcomes of an action of which every step succeeded.
pub open spec fn all_done() -> ExecutionReportView {
    ExecutionReportView {
        message: StepOutcomeView::Succeeded,
        user: StepOutcomeView::Succeeded,
        report: StepOutcomeView::Succeeded,
    }
}

/// An action that asks for every step is carried out in three requests when
/// the platform accepts each of them: the message is deleted, its author is
/// timed out until exactly `period` seconds from now, the moderators are
/// told in their channel, and the action ends with every step succeeded.
pub proof fn lemma_every_step_succeeds(
    settings: PluginSettings,
    take_action: TakeActionView,
    message: MessageView,
    period: u64,
    now: u64,
)
    requires
        take_action.message is Some,
        take_action.user == Some(ActionsUser::TimeOut(period)),
        take_action.report is Some,
        member_target(message) is Ok,
        settings.automod_channel_id != 0,
        now + period <= 253_402_300_799,
        embed_within_limits(
            report_embed(take_action.report->0, take_action, both_actions_done(), message, now),
        ),
    ensures
        ({
            let first = message_stage(settings, take_action, message, now, true);
            let second = resumed(settings, first->Call_0, Ok(()), now, true);
            let third = resumed(settings, second->Call_0, Ok(()), now, true);
            let end = resumed(settings, third->Call_0, Ok(()), now, true);
            &&& first is Call
            &&& first->Call_0.request == spec_delete_message(message)
            &&& second is Call
            &&& second->Call_0.request is UpdateMember
            &&& Some(second->Call_0.request->UpdateMember_guild_id) == message.guild_id
            &&& second->Call_0.request->UpdateMember_user_id == message.author_id
            &&& second->Call_0.request->UpdateMember_until == now + period
            &&& third is Call
            &&& third->Call_0.request is CreateMessage
            &&& third->Call_0.request->CreateMessage_channel_id == settings.automod_channel_id
            &&& third->Call_0.request->CreateMessage_embed == report_embed(
                take_action.report->0,
                take_action,
                both_actions_done(),
                message,
                now,
            )
            &&& end == ProgressView::Finished(Ok(all_done()))
        }),
{
}

/// The action of the rule against attachment spam at its defaults, as the
/// only rule that a message breaks: one reason, the message deleted, its
/// author timed out for a minute.
pub open spec fn default_spam_action(attachment_count: nat) -> TakeActionView {
    TakeActionView {
        report: Some("- "@ + attachment_spam_reason(attachment_count)),
        message: Some(ActionsMessage::Delete),
        user: Some(ActionsUser::TimeOut(60)),
    }
}

/// The text of the notice about a message without text that was deleted and
/// whose author was timed out for a minute under the default rule.
pub open spec fn default_spam_notice(message: MessageView) -> Seq<char> {
    "**Reasons:**\n"@ + ("- "@ + attachment_spam_reason(message.attachments.len()))
        + "\n\n**Actions Taken:**"@ + "\n- Message deleted"@ + ("\n- User timed out for "@
        + decimal(60) + " seconds"@) + "\n\n**Message:**\n"@ + "No Content"@ + "\n"@ + url_lines(
        message.attachments,
    )
}

/// Under the default rule, a message without text and with four attachments
/// or more, whose author is not exempt, is moderated in three requests when
/// the platform accepts each of them: the message is deleted, its author is
/// timed out until 60 seconds from now, and the moderators get a notice that
/// names the number of attachments and both actions. The moderation then
/// ends with every step succeeded.
pub proof fn lemma_attachment_spam_is_moderated(
    settings: PluginSettings,
    message: MessageView,
    now: u64,
)
    requires
        !is_exempt(settings.bypass, message.author_id, message.member_roles),
        settings.validations == PluginSettingsValidations::spec_default(),
        message.content.len() == 0,
        message.attachments.len() >= 4,
        member_target(message) is Ok,
        settings.automod_channel_id != 0,
        now + 60 <= 253_402_300_799,
        embed_within_limits(
            report_embed(
                "- "@ + attachment_spam_reason(message.attachments.len()),
                default_spam_action(message.attachments.len()),
                both_actions_done(),
                message,
                now,
            ),
        ),
    ensures
        consolidated(settings, message) == default_spam_action(message.attachments.len()),
        ({
            let first = validated(settings, message, now, true);
            let second = resumed(settings, first->Call_0, Ok(()), now, true);
            let third = resumed(settings, second->Call_0, Ok(()), now, true);
            let end = resumed(settings, third->Call_0, Ok(()), now, true);
            &&& first is Call
            &&& first->Call_0.request == spec_delete_message(message)
            &&& second is Call
            &&& second->Call_0.request is UpdateMember
            &&& Some(second->Call_0.request->UpdateMember_guild_id) == message.guild_id
            &&& second->Call_0.request->UpdateMember_user_id == message.author_id
            &&& second->Call_0.request->UpdateMember_until == now + 60
            &&& third is Call
            &&& third->Call_0.request is CreateMessage
            &&& third->Call_0.request->CreateMessage_channel_id == settings.automod_channel_id
            &&& third->Call_0.request->CreateMessage_embed.description == Some(
                default_spam_notice(message),
            )
            &&& end == ProgressView::Finished(Ok(all_done()))
        }),
{
    let count = message.attachments.len();
    let action = default_spam_action(count);
    let rule = PluginSettingsAttachmentSpam::spec_default();
    assert(spec_attachment_spam(rule, message) == Some(
        TakeActionView {
            report: Some(attachment_spam_reason(count)),
            message: Some(ActionsMessage::Delete),
            user: Some(ActionsUser::TimeOut(60)),
        },
    ));
    assert(consolidated(settings, message) == action) by {
        let only = candidates(settings, message);
        assert(only.drop_last() =~= Seq::empty());
        reveal_with_fuel(Seq::fold_left, 2);
    }
    assert(report_description(action.report->0, action, both_actions_done(), message)
        =~= default_spam_notice(message));
    lemma_every_step_succeeds(settings, action, message, 60, now);
}

} // verus!
