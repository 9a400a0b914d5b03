//! Carrying out an action, one request to the platform at a time.
//!
//! The steps are taken in a fixed order: the message, its author, the notice
//! to the moderators. Each step that the action asks for gives one request.
//! The caller sends the request and hands back how the platform answered;
//! the next step follows whatever the answer was, so that the moderators
//! hear of an action that failed. Only a failed notice fails the whole.

use crate::action::{no_action, TakeAction, TakeActionView};
use crate::message::{Message, MessageView};
use crate::outcome::{
    concluded, nothing_done, outcome_of, with_outcome, ExecutionError, ExecutionErrorView,
    ExecutionReport, ExecutionReportView, Stage, StepOutcome, StepOutcomeView,
};
use crate::platform::{
    checked_view, create_ban_body, create_ban_body_with_reason, create_ban_request,
    invalid_fields_error, update_member_body, update_member_json,
};
use crate::plugin::Plugin;
use crate::report::{spec_report, timestamp_of, to_timestamp};
use crate::requests::{encoded_view, request_view, Requests, RequestsView};
use crate::settings::{ActionsMessage, ActionsUser, PluginSettings};
use crate::text::joined;
use vstd::prelude::*;

verus! {

/// A request that waits for the platform's answer, with all that is needed to
/// go on from there.
#[derive(Debug, PartialEq, Eq)]
pub struct PendingCall {
    /// The request to send.
    pub request: Requests,
    /// The step that the request belongs to.
    pub stage: Stage,
    pub take_action: TakeAction,
    /// How the steps before this one ended.
    pub outcomes: ExecutionReport,
    pub message: Message,
}

/// Where an action stands: at a request, or at its end.
#[derive(Debug, PartialEq, Eq)]
pub enum Progress {
    Call(PendingCall),
    Finished(Result<ExecutionReport, ExecutionError>),
}

/// The mathematical value of a [`PendingCall`].
pub struct PendingCallView {
    pub request: RequestsView,
    pub stage: Stage,
    pub take_action: TakeActionView,
    pub outcomes: ExecutionReportView,
    pub message: MessageView,
}

/// The mathematical value of a [`Progress`].
pub enum ProgressView {
    Call(PendingCallView),
    Finished(Result<ExecutionReportView, ExecutionErrorView>),
}

impl View for PendingCall {
    type V = PendingCallView;

    open spec fn view(&self) -> PendingCallView {
        PendingCallView {
            request: self.request@,
            stage: self.stage,
            take_action: self.take_action@,
            outcomes: self.outcomes@,
            message: self.message@,
        }
    }
}

impl View for Progress {
    type V = ProgressView;

    open spec fn view(&self) -> ProgressView {
        match *self {
            Progress::Call(pending) => ProgressView::Call(pending@),
            Progress::Finished(Ok(outcomes)) => ProgressView::Finished(Ok(outcomes@)),
            Progress::Finished(Err(failure)) => ProgressView::Finished(Err(failure@)),
        }
    }
}

/// The request that deletes `message`.
pub open spec fn spec_delete_message(message: MessageView) -> RequestsView {
    RequestsView::DeleteMessage { channel_id: message.channel_id, message_id: message.id }
}

/// The guild and the member that an action on the author of `message` is
/// aimed at, or why there is none: only a message from a guild has a member
/// to act on, and the platform knows no identifier zero.
pub open spec fn member_target(message: MessageView) -> Result<(u64, u64), Seq<char>> {
    match message.guild_id {
        None => Err("the message was not sent in a guild"@),
        Some(guild_id) => if guild_id == 0 || message.author_id == 0 {
            Err("an identifier is zero"@)
        } else {
            Ok((guild_id, message.author_id))
        },
    }
}

/// What every error of building a time-out request begins with.
pub open spec fn time_out_error_prefix() -> Seq<char> {
    "An error occured while creating the update member request: "@
}

/// What every error of building a ban request begins with.
pub open spec fn ban_error_prefix() -> Seq<char> {
    "An error occured while creating the create ban request: "@
}

/// The request that times a member out until `until`, given what the
/// platform crate made of it: the body in `encoded`, or its refusal.
pub open spec fn spec_time_out_request(
    guild_id: u64,
    user_id: u64,
    until: i64,
    encoded: Result<Seq<u8>, Seq<char>>,
) -> Result<RequestsView, Seq<char>> {
    match encoded {
        Ok(body) => Ok(RequestsView::UpdateMember { guild_id, user_id, until, body }),
        Err(error) => Err(time_out_error_prefix() + error),
    }
}

/// What the platform crate makes of a time-out until `until`: the body of the
/// request where it accepts the time-out, its refusal where it does not.
pub open spec fn time_out_encoded(guild_id: u64, user_id: u64, until: i64, accepted: bool) -> Result<
    Seq<u8>,
    Seq<char>,
> {
    if accepted {
        Ok(update_member_json(guild_id, user_id, until))
    } else {
        Err(invalid_fields_error())
    }
}

/// The time at which a time-out of `period` seconds that starts at `now`
/// ends, where the platform can hold that time.
pub open spec fn spec_time_out_end(now: u64, period: u64) -> Option<i64> {
    to_timestamp(now + period)
}

/// The request that times the author of `message` out for `period` seconds
/// from `now`. A time-out whose end the platform cannot hold is refused
/// before the platform crate is asked. `accepted` tells whether the platform
/// crate, which compares the end of the time-out with its own clock, accepts
/// the time-out.
pub open spec fn spec_time_out_user(
    message: MessageView,
    period: u64,
    now: u64,
    accepted: bool,
) -> Result<RequestsView, Seq<char>> {
    match member_target(message) {
        Err(why) => Err(time_out_error_prefix() + why),
        Ok((guild_id, user_id)) => match spec_time_out_end(now, period) {
            None => Err(time_out_error_prefix() + "the end of the time-out is out of range"@),
            Some(until) => spec_time_out_request(
                guild_id,
                user_id,
                until,
                time_out_encoded(guild_id, user_id, until, accepted),
            ),
        },
    }
}

/// The request that bans the author of `message`. The reason goes with the
/// ban as it is given: a ban without a reason carries none.
pub open spec fn spec_ban_user(reason: Option<Seq<char>>, message: MessageView) -> Result<
    RequestsView,
    Seq<char>,
> {
    match member_target(message) {
        Err(why) => Err(ban_error_prefix() + why),
        Ok((guild_id, user_id)) => match create_ban_request(reason) {
            Ok(body) => Ok(RequestsView::CreateBan { guild_id, user_id, reason, body }),
            Err(error) => Err(ban_error_prefix() + error),
        },
    }
}

/// The last step: the notice, where the action holds reasons. A notice that
/// cannot be built fails the action without a request.
pub open spec fn report_stage(
    settings: PluginSettings,
    take_action: TakeActionView,
    message: MessageView,
    outcomes: ExecutionReportView,
    now: u64,
) -> ProgressView {
    match take_action.report {
        None => ProgressView::Finished(concluded(outcomes)),
        Some(reasons) => match spec_report(settings, reasons, take_action, outcomes, message, now) {
            Ok(request) => ProgressView::Call(
                PendingCallView { request, stage: Stage::Report, take_action, outcomes, message },
            ),
            Err(error) => ProgressView::Finished(
                concluded(with_outcome(outcomes, Stage::Report, StepOutcomeView::Failed(error))),
            ),
        },
    }
}

/// The request of the step that acts on the author, if the action asks for
/// one. `accepted` tells whether the platform crate accepts a time-out.
pub open spec fn user_request(
    take_action: TakeActionView,
    message: MessageView,
    now: u64,
    accepted: bool,
) -> Option<Result<RequestsView, Seq<char>>> {
    match take_action.user {
        None => None,
        Some(ActionsUser::Ban) => Some(spec_ban_user(take_action.report, message)),
        Some(ActionsUser::TimeOut(period)) => Some(
            spec_time_out_user(message, period, now, accepted),
        ),
    }
}

/// The second step and what follows it. A request that cannot be built is a
/// failed step, and the notice comes next all the same.
pub open spec fn user_stage(
    settings: PluginSettings,
    take_action: TakeActionView,
    message: MessageView,
    outcomes: ExecutionReportView,
    now: u64,
    accepted: bool,
) -> ProgressView {
    match user_request(take_action, message, now, accepted) {
        None => report_stage(settings, take_action, message, outcomes, now),
        Some(Ok(request)) => ProgressView::Call(
            PendingCallView { request, stage: Stage::User, take_action, outcomes, message },
        ),
        Some(Err(error)) => report_stage(
            settings,
            take_action,
            message,
            with_outcome(outcomes, Stage::User, StepOutcomeView::Failed(error)),
            now,
        ),
    }
}

/// The first step and what follows it.
pub open spec fn message_stage(
    settings: PluginSettings,
    take_action: TakeActionView,
    message: MessageView,
    now: u64,
    accepted: bool,
) -> ProgressView {
    match take_action.message {
        None => user_stage(settings, take_action, message, nothing_done(), now, accepted),
        Some(ActionsMessage::Delete) => ProgressView::Call(
            PendingCallView {
                request: spec_delete_message(message),
                stage: Stage::Message,
                take_action,
                outcomes: nothing_done(),
                message,
            },
        ),
    }
}

/// Where the action stands after the platform answered the pending request
/// with `result`: the answer is put on record, and the next step follows.
pub open spec fn resumed(
    settings: PluginSettings,
    pending: PendingCallView,
    result: Result<(), Seq<char>>,
    now: u64,
    accepted: bool,
) -> ProgressView {
    let outcomes = with_outcome(pending.outcomes, pending.stage, outcome_of(result));
    match pending.stage {
        Stage::Message => user_stage(
            settings,
            pending.take_action,
            pending.message,
            outcomes,
            now,
            accepted,
        ),
        Stage::User => report_stage(settings, pending.take_action, pending.message, outcomes, now),
        Stage::Report => ProgressView::Finished(concluded(outcomes)),
    }
}

/// The request that times a member out, from what the platform crate made of
/// it.
pub fn time_out_request(
    guild_id: u64,
    user_id: u64,
    until: i64,
    encoded: Result<Vec<u8>, String>,
) -> (request: Result<Requests, String>)
    ensures
        request_view(request) == spec_time_out_request(
            guild_id,
            user_id,
            until,
            encoded_view(encoded),
        ),
{
    match encoded {
        Ok(body) => Ok(Requests::UpdateMember { guild_id, user_id, until, body }),
        Err(error) => Err(
            joined("An error occured while creating the update member request: ", error.as_str()),
        ),
    }
}

/// The time at which a time-out of `period` seconds that starts at `now`
/// ends: `now + period`, exactly where the platform can hold that time.
pub fn time_out_end(now: u64, period: u64) -> (until: Option<i64>)
    ensures
        until == spec_time_out_end(now, period),
        until matches Some(end) ==> end == now + period,
        now + period <= 253_402_300_799 ==> until == Some((now + period) as i64),
{
    match now.checked_add(period) {
        Some(end) => timestamp_of(end),
        None => None,
    }
}

/// The guild and the member that an action on the author of `message` is
/// aimed at.
fn target_of(message: &Message) -> (target: Result<(u64, u64), String>)
    ensures
        match target {
            Ok(pair) => Ok(pair),
            Err(why) => Err(why@),
        } == member_target(message@),
{
    match message.guild_id {
        None => Err(String::from_str("the message was not sent in a guild")),
        Some(guild_id) => {
            if guild_id == 0 || message.author_id == 0 {
                Err(String::from_str("an identifier is zero"))
            } else {
                Ok((guild_id, message.author_id))
            }
        },
    }
}

impl Plugin {
    /// Builds the request that deletes `message`.
    pub fn delete_message(message: &Message) -> (request: Requests)
        ensures
            request@ == spec_delete_message(message@),
    {
        Requests::DeleteMessage { channel_id: message.channel_id, message_id: message.id }
    }

    /// Builds the request that times the author of `message` out for `period`
    /// seconds, counted from `now` in seconds since the Unix epoch. A request
    /// that is built ends the time-out at `now + period`.
    ///
    /// The platform crate compares the end of the time-out with its own clock
    /// and refuses one that lies more than 28 days ahead. Whether it accepts
    /// is therefore not promised; either way the result is the one that
    /// [`spec_time_out_user`] gives for its answer.
    pub fn time_out_user(message: &Message, period: u64, now: u64) -> (request: Result<
        Requests,
        String,
    >)
        ensures
            exists|accepted: bool|
                request_view(request) == #[trigger] spec_time_out_user(
                    message@,
                    period,
                    now,
                    accepted,
                ),
            member_target(message@) is Err || spec_time_out_end(now, period) is None
                ==> request is Err,
            request matches Ok(built) ==> {
                &&& built@ is UpdateMember
                &&& Some(built@->UpdateMember_guild_id) == message@.guild_id
                &&& built@->UpdateMember_user_id == message@.author_id
                &&& built@->UpdateMember_until == now + period
            },
    {
        let prefix = "An error occured while creating the update member request: ";
        let (guild_id, user_id) = match target_of(message) {
            Err(why) => {
                let request = Err(joined(prefix, why.as_str()));
                assert(request_view(request) == spec_time_out_user(message@, period, now, false));
                return request;
            },
            Ok(target) => target,
        };
        match time_out_end(now, period) {
            None => {
                let request = Err(joined(prefix, "the end of the time-out is out of range"));
                assert(request_view(request) == spec_time_out_user(message@, period, now, false));
                request
            },
            Some(until) => {
                let encoded = update_member_body(guild_id, user_id, until);
                let ghost accepted = encoded is Ok;
                let request = time_out_request(guild_id, user_id, until, encoded);
                assert(request_view(request) == spec_time_out_user(
                    message@,
                    period,
                    now,
                    accepted,
                ));
                request
            },
        }
    }

    /// Builds the request that bans the author of `message`. A reason goes
    /// to the audit log as it is given; without one the ban carries none.
    pub fn ban_user(reason: Option<&str>, message: &Message) -> (request: Result<Requests, String>)
        ensures
            request_view(request) == spec_ban_user(
                match reason {
                    Some(text) => Some(text@),
                    None => None,
                },
                message@,
            ),
            request is Ok <==> member_target(message@) is Ok && (reason matches Some(text)
                ==> text@.len() <= 512),
    {
        let prefix = "An error occured while creating the create ban request: ";
        let (guild_id, user_id) = match target_of(message) {
            Err(why) => {
                return Err(joined(prefix, why.as_str()));
            },
            Ok(target) => target,
        };
        let (encoded, reason) = match reason {
            Some(text) => (
                create_ban_body_with_reason(guild_id, user_id, text),
                Some(String::from_str(text)),
            ),
            None => (create_ban_body(guild_id, user_id), None),
        };
        match encoded {
            Ok(body) => Ok(Requests::CreateBan { guild_id, user_id, reason, body }),
            Err(error) => Err(joined(prefix, error.as_str())),
        }
    }

    /// The last step of an action and its end.
    fn run_report_stage(
        &self,
        take_action: TakeAction,
        message: Message,
        outcomes: ExecutionReport,
        now: u64,
    ) -> (progress: Progress)
        ensures
            progress@ == report_stage(self.settings, take_action@, message@, outcomes@, now),
    {
        let built = match &take_action.report {
            None => None,
            Some(reasons) => Some(
                self.report(reasons.as_str(), &take_action, &outcomes, &message, now),
            ),
        };
        match built {
            None => Progress::Finished(outcomes.conclude()),
            Some(Ok(request)) => Progress::Call(
                PendingCall { request, stage: Stage::Report, take_action, outcomes, message },
            ),
            Some(Err(error)) => {
                let ExecutionReport { message: message_outcome, user, report: _ } = outcomes;
                let outcomes = ExecutionReport {
                    message: message_outcome,
                    user,
                    report: StepOutcome::Failed(error),
                };
                Progress::Finished(outcomes.conclude())
            },
        }
    }

    /// The step that acts on the author, and what follows it.
    fn run_user_stage(
        &self,
        take_action: TakeAction,
        message: Message,
        outcomes: ExecutionReport,
        now: u64,
    ) -> (progress: Progress)
        ensures
            exists|accepted: bool|
                progress@ == #[trigger] user_stage(
                    self.settings,
                    take_action@,
                    message@,
                    outcomes@,
                    now,
                    accepted,
                ),
    {
        let ghost mut answer: bool = false;
        let built = match take_action.user {
            None => None,
            Some(ActionsUser::Ban) => {
                let reason = match &take_action.report {
                    Some(text) => Some(text.as_str()),
                    None => None,
                };
                Some(Plugin::ban_user(reason, &message))
            },
            Some(ActionsUser::TimeOut(period)) => {
                let request = Plugin::time_out_user(&message, period, now);
                proof {
                    answer = choose|accepted: bool|
                        request_view(request) == #[trigger] spec_time_out_user(
                            message@,
                            period,
                            now,
                            accepted,
                        );
                }
                Some(request)
            },
        };
        let ghost before = (take_action@, message@, outcomes@);
        let progress = match built {
            None => self.run_report_stage(take_action, message, outcomes, now),
            Some(Ok(request)) => Progress::Call(
                PendingCall { request, stage: Stage::User, take_action, outcomes, message },
            ),
            Some(Err(error)) => {
                let ExecutionReport { message: message_outcome, user: _, report } = outcomes;
                let outcomes = ExecutionReport {
                    message: message_outcome,
                    user: StepOutcome::Failed(error),
                    report,
                };
                self.run_report_stage(take_action, message, outcomes, now)
            },
        };
        assert(progress@ == user_stage(self.settings, before.0, before.1, before.2, now, answer));
        progress
    }

    /// Begins to carry out `take_action` on `message`: the first request, or
    /// the end where nothing is left to do. `now` is the time in seconds
    /// since the Unix epoch.
    ///
    /// The steps that the action does not ask for are skipped. A time-out is
    /// built by the platform crate, which may refuse it by its own clock;
    /// whatever it answers, the result is the one that [`message_stage`]
    /// gives for that answer.
    pub fn take_action(&self, take_action: TakeAction, message: Message, now: u64) -> (progress:
        Progress)
        ensures
            exists|accepted: bool|
                progress@ == #[trigger] message_stage(
                    self.settings,
                    take_action@,
                    message@,
                    now,
                    accepted,
                ),
            take_action@ == no_action() ==> progress@ == ProgressView::Finished(Ok(nothing_done())),
            take_action@.message is Some ==> progress@ == ProgressView::Call(
                PendingCallView {
                    request: spec_delete_message(message@),
                    stage: Stage::Message,
                    take_action: take_action@,
                    outcomes: nothing_done(),
                    message: message@,
                },
            ),
    {
        match take_action.message {
            Some(ActionsMessage::Delete) => {
                let request = Plugin::delete_message(&message);
                let progress = Progress::Call(
                    PendingCall {
                        request,
                        stage: Stage::Message,
                        take_action,
                        outcomes: ExecutionReport::nothing(),
                        message,
                    },
                );
                assert(progress@ == message_stage(
                    self.settings,
                    take_action@,
                    message@,
                    now,
                    false,
                ));
                progress
            },
            None => {
                let ghost before = (take_action@, message@);
                let progress = self.run_user_stage(
                    take_action,
                    message,
                    ExecutionReport::nothing(),
                    now,
                );
                proof {
                    let answer = choose|accepted: bool|
                        progress@ == #[trigger] user_stage(
                            self.settings,
                            before.0,
                            before.1,
                            nothing_done(),
                            now,
                            accepted,
                        );
                    assert(progress@ == message_stage(
                        self.settings,
                        before.0,
                        before.1,
                        now,
                        answer,
                    ));
                }
                progress
            },
        }
    }

    /// Goes on after the platform answered the pending request with `result`:
    /// the answer is put on record, and the next request follows, or the end.
    /// A failed step does not end the action: the steps after it are taken
    /// all the same, and the notice marks what failed.
    pub fn resume(&self, pending: PendingCall, result: Result<(), String>, now: u64) -> (progress:
        Progress)
        ensures
            exists|accepted: bool|
                progress@ == #[trigger] resumed(
                    self.settings,
                    pending@,
                    checked_view(result),
                    now,
                    accepted,
                ),
            pending.stage == Stage::Report ==> progress@ == ProgressView::Finished(
                concluded(
                    with_outcome(pending@.outcomes, Stage::Report, outcome_of(checked_view(result))),
                ),
            ),
    {
        let PendingCall { request: _, stage, take_action, outcomes, message } = pending;
        let ExecutionReport { message: message_outcome, user, report } = outcomes;
        let outcome = StepOutcome::from_result(result);
        match stage {
            Stage::Message => {
                let outcomes = ExecutionReport { message: outcome, user, report };
                let ghost before = (take_action@, message@, outcomes@);
                let progress = self.run_user_stage(take_action, message, outcomes, now);
                proof {
                    let answer = choose|accepted: bool|
                        progress@ == #[trigger] user_stage(
                            self.settings,
                            before.0,
                            before.1,
                            before.2,
                            now,
                            accepted,
                        );
                    assert(progress@ == resumed(
                        self.settings,
                        pending@,
                        checked_view(result),
                        now,
                        answer,
                    ));
                }
                progress
            },
            Stage::User => {
                let outcomes = ExecutionReport { message: message_outcome, user: outcome, report };
                let progress = self.run_report_stage(take_action, message, outcomes, now);
                assert(progress@ == resumed(
                    self.settings,
                    pending@,
                    checked_view(result),
                    now,
                    false,
                ));
                progress
            },
            Stage::Report => {
                let outcomes = ExecutionReport { message: message_outcome, user, report: outcome };
                let progress = Progress::Finished(outcomes.conclude());
                assert(progress@ == resumed(
                    self.settings,
                    pending@,
                    checked_view(result),
                    now,
                    false,
                ));
                progress
            },
        }
    }
}

} // verus!
