//! The notice to the moderators: its text and the request that posts it.

use crate::action::{TakeAction, TakeActionView};
use crate::message::{Message, MessageView};
use crate::outcome::{ExecutionReport, ExecutionReportView, StepOutcome, StepOutcomeView};
use crate::platform::{
    create_message_body, create_message_request, embed_within_limits, timestamp_holds,
    timestamp_is_representable,
};
use crate::plugin::Plugin;
use crate::requests::{Embed, EmbedView, Requests, RequestsView, request_view};
use crate::settings::{ActionsMessage, ActionsUser, PluginSettings};
use crate::text::{decimal, joined, push_decimal};
use vstd::prelude::*;

verus! {

/// The timestamp that stands for `seconds` since the Unix epoch, where the
/// platform can hold it. Every time up to the end of the year 9999 has one.
pub open spec fn to_timestamp(seconds: int) -> Option<i64> {
    if 0 <= seconds <= i64::MAX && timestamp_holds(seconds as i64) {
        Some(seconds as i64)
    } else {
        None
    }
}

/// Where the platform serves the avatar with hash `avatar` of user `author_id`.
pub open spec fn avatar_url(author_id: u64, avatar: Seq<char>) -> Seq<char> {
    "https://cdn.discordapp.com/avatars/"@ + decimal(author_id as nat) + "/"@ + avatar + ".webp"@
}

/// The notice about `message`, before its text is filled in: who wrote the
/// message, a red marker, the author's identifier as footer, and the time,
/// which is left out where the platform cannot hold it.
pub open spec fn spec_base_embed(message: MessageView, now: u64) -> EmbedView {
    EmbedView {
        author_name: message.author_name,
        author_icon_url: match message.author_avatar {
            Some(avatar) => Some(avatar_url(message.author_id, avatar)),
            None => None,
        },
        color: Some(0x00E7_2323),
        description: None,
        footer: "ID: "@ + decimal(message.author_id as nat),
        kind: "rich"@,
        timestamp: to_timestamp(now as int),
        title: Some("Automod Report"@),
    }
}

/// What is appended to the line of a step that failed.
pub open spec fn failure_mark(outcome: StepOutcomeView) -> Seq<char> {
    if outcome is Failed {
        " (failed)"@
    } else {
        Seq::empty()
    }
}

/// The line of the notice that tells what was done to the message.
pub open spec fn message_line(action: Option<ActionsMessage>, outcome: StepOutcomeView) -> Seq<char> {
    match action {
        None => Seq::empty(),
        Some(ActionsMessage::Delete) => "\n- Message deleted"@ + failure_mark(outcome),
    }
}

/// The line of the notice that tells what was done to the author.
pub open spec fn user_line(action: Option<ActionsUser>, outcome: StepOutcomeView) -> Seq<char> {
    match action {
        None => Seq::empty(),
        Some(ActionsUser::Ban) => "\n- User banned"@ + failure_mark(outcome),
        Some(ActionsUser::TimeOut(period)) => "\n- User timed out for "@ + decimal(period as nat)
            + " seconds"@ + failure_mark(outcome),
    }
}

/// Every URL on a line of its own.
pub open spec fn url_lines(urls: Seq<Seq<char>>) -> Seq<char>
    decreases urls.len(),
{
    if urls.len() == 0 {
        Seq::empty()
    } else {
        url_lines(urls.drop_last()) + "\n"@ + urls.last()
    }
}

/// The last part of the notice: the attachments, or that there are none.
pub open spec fn attachment_lines(urls: Seq<Seq<char>>) -> Seq<char> {
    if urls.len() == 0 {
        "\nNo Attachments"@
    } else {
        url_lines(urls)
    }
}

/// The text of the notice: the reasons, one line for each action that was
/// asked for, marked where it failed, the text of the message, and the URLs
/// of its attachments.
pub open spec fn report_description(
    reasons: Seq<char>,
    take_action: TakeActionView,
    outcomes: ExecutionReportView,
    message: MessageView,
) -> Seq<char> {
    "**Reasons:**\n"@ + reasons + "\n\n**Actions Taken:**"@ + message_line(
        take_action.message,
        outcomes.message,
    ) + user_line(take_action.user, outcomes.user) + "\n\n**Message:**\n"@ + (if message.content.len()
        == 0 {
        "No Content"@
    } else {
        message.content
    }) + "\n"@ + attachment_lines(message.attachments)
}

/// The notice about `message` with its text.
pub open spec fn report_embed(
    reasons: Seq<char>,
    take_action: TakeActionView,
    outcomes: ExecutionReportView,
    message: MessageView,
    now: u64,
) -> EmbedView {
    EmbedView {
        description: Some(report_description(reasons, take_action, outcomes, message)),
        ..spec_base_embed(message, now)
    }
}

/// What every error of building the notice's request begins with.
pub open spec fn report_error_prefix() -> Seq<char> {
    "An error occured while creating the report create message request: "@
}

/// The request that posts the notice to the moderators' channel, or the
/// reason why it cannot be built: no channel is configured, or the platform
/// crate refuses the notice.
pub open spec fn spec_report(
    settings: PluginSettings,
    reasons: Seq<char>,
    take_action: TakeActionView,
    outcomes: ExecutionReportView,
    message: MessageView,
    now: u64,
) -> Result<RequestsView, Seq<char>> {
    let embed = report_embed(reasons, take_action, outcomes, message, now);
    if settings.automod_channel_id == 0 {
        Err(report_error_prefix() + "the report channel is not configured"@)
    } else {
        match create_message_request(settings.automod_channel_id, embed) {
            Ok(body) => Ok(
                RequestsView::CreateMessage { channel_id: settings.automod_channel_id, embed, body },
            ),
            Err(error) => Err(report_error_prefix() + error),
        }
    }
}

/// The timestamp that stands for `seconds` since the Unix epoch, where the
/// platform can hold it.
pub fn timestamp_of(seconds: u64) -> (timestamp: Option<i64>)
    ensures
        timestamp == to_timestamp(seconds as int),
        seconds <= 253_402_300_799 ==> timestamp == Some(seconds as i64),
{
    if seconds <= i64::MAX as u64 && timestamp_is_representable(seconds as i64) {
        Some(seconds as i64)
    } else {
        None
    }
}

/// Appends to `text` the mark of a step that failed.
fn push_failure_mark(text: &mut String, outcome: &StepOutcome)
    ensures
        final(text)@ == old(text)@ + failure_mark(outcome@),
{
    if outcome.is_failed() {
        text.append(" (failed)");
    }
    assert(text@ =~= old(text)@ + failure_mark(outcome@));
}

/// Appends to `text` the attachments of `message`, or that there are none.
fn push_attachment_lines(text: &mut String, message: &Message)
    ensures
        final(text)@ == old(text)@ + attachment_lines(message@.attachments),
{
    let ghost urls = message@.attachments;
    if message.attachments.len() == 0 {
        text.append("\nNo Attachments");
        return ;
    }
    let mut i: usize = 0;
    assert(text@ =~= old(text)@ + url_lines(urls.take(0)));
    while i < message.attachments.len()
        invariant
            i <= message.attachments.len(),
            urls == message@.attachments,
            text@ == old(text)@ + url_lines(urls.take(i as int)),
        decreases message.attachments.len() - i,
    {
        text.append("\n");
        text.append(message.attachments[i].url.as_str());
        proof {
            let next = urls.take(i + 1);
            assert(next.drop_last() =~= urls.take(i as int));
            assert(next.last() == message.attachments@[i as int]@);
            assert(text@ =~= old(text)@ + url_lines(next));
        }
        i += 1;
    }
    assert(urls.take(i as int) =~= urls);
}

impl Plugin {
    /// The notice about `message`, before its text is filled in. `now` is the
    /// time in seconds since the Unix epoch.
    pub fn base_embed(message: &Message, now: u64) -> (embed: Embed)
        ensures
            embed@ == spec_base_embed(message@, now),
            now <= 253_402_300_799 ==> embed.timestamp == Some(now as i64),
    {
        let author_icon_url = match &message.author_avatar {
            Some(avatar) => {
                let mut url = String::from_str("https://cdn.discordapp.com/avatars/");
                push_decimal(&mut url, message.author_id);
                url.append("/");
                url.append(avatar.as_str());
                url.append(".webp");
                Some(url)
            },
            None => None,
        };
        let mut footer = String::from_str("ID: ");
        push_decimal(&mut footer, message.author_id);
        Embed {
            author_name: message.author_name.clone(),
            author_icon_url,
            color: Some(0x00E7_2323),
            description: None,
            footer,
            kind: String::from_str("rich"),
            timestamp: timestamp_of(now),
            title: Some(String::from_str("Automod Report")),
        }
    }

    /// Builds the request that tells the moderators what `message` did and
    /// what was done about it. `reasons` are the merged reasons of the rules,
    /// `outcomes` how the steps before this one ended.
    pub fn report(
        &self,
        reasons: &str,
        take_action: &TakeAction,
        outcomes: &ExecutionReport,
        message: &Message,
        now: u64,
    ) -> (request: Result<Requests, String>)
        ensures
            request_view(request) == spec_report(
                self.settings,
                reasons@,
                take_action@,
                outcomes@,
                message@,
                now,
            ),
            request is Ok <==> self.settings.automod_channel_id != 0 && embed_within_limits(
                report_embed(reasons@, take_action@, outcomes@, message@, now),
            ),
    {
        let mut embed = Plugin::base_embed(message, now);
        let mut text = String::from_str("**Reasons:**\n");
        text.append(reasons);
        text.append("\n\n**Actions Taken:**");
        if let Some(message_action) = take_action.message {
            match message_action {
                ActionsMessage::Delete => text.append("\n- Message deleted"),
            }
            push_failure_mark(&mut text, &outcomes.message);
        }
        assert(text@ =~= "**Reasons:**\n"@ + reasons@ + "\n\n**Actions Taken:**"@ + message_line(
            take_action@.message,
            outcomes@.message,
        ));
        let ghost before_user = text@;
        if let Some(user_action) = take_action.user {
            match user_action {
                ActionsUser::Ban => text.append("\n- User banned"),
                ActionsUser::TimeOut(period) => {
                    text.append("\n- User timed out for ");
                    push_decimal(&mut text, period);
                    text.append(" seconds");
                },
            }
            push_failure_mark(&mut text, &outcomes.user);
        }
        assert(text@ =~= before_user + user_line(take_action@.user, outcomes@.user));
        text.append("\n\n**Message:**\n");
        if message.content.as_str().is_empty() {
            text.append("No Content");
        } else {
            text.append(message.content.as_str());
        }
        text.append("\n");
        push_attachment_lines(&mut text, message);
        assert(text@ =~= report_description(reasons@, take_action@, outcomes@, message@));
        embed.description = Some(text);
        let channel_id = self.settings.automod_channel_id;
        let prefix = "An error occured while creating the report create message request: ";
        if channel_id == 0 {
            return Err(joined(prefix, "the report channel is not configured"));
        }
        match create_message_body(channel_id, embed.duplicate()) {
            Ok(body) => Ok(Requests::CreateMessage { channel_id, embed, body }),
            Err(error) => Err(joined(prefix, error.as_str())),
        }
    }
}

} // verus!
