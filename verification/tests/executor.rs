use discord_plugins::action::TakeAction;
use discord_plugins::executor::{time_out_end, time_out_request, PendingCall, Progress};
use discord_plugins::message::{Attachment, Message};
use discord_plugins::outcome::{ExecutionError, ExecutionReport, Stage, StepOutcome};
use discord_plugins::plugin::Plugin;
use discord_plugins::report::timestamp_of;
use discord_plugins::requests::Requests;
use discord_plugins::settings::{ActionsMessage, ActionsUser, PluginSettings};
use std::time::{SystemTime, UNIX_EPOCH};

const NOW: u64 = 1_700_000_000;

fn plugin() -> Plugin {
    let mut settings = PluginSettings::default();
    settings.automod_channel_id = 900;
    Plugin { settings }
}

fn message(content: &str, attachments: usize) -> Message {
    Message {
        id: 11,
        channel_id: 22,
        guild_id: Some(33),
        author_id: 44,
        author_name: String::from("writer"),
        author_avatar: Some(String::from("0123abcd")),
        member_roles: Some(vec![5, 6]),
        content: String::from(content),
        attachments: (0..attachments)
            .map(|i| Attachment { url: format!("https://files.example/{i}.png") })
            .collect(),
    }
}

fn pending(progress: Progress) -> PendingCall {
    match progress {
        Progress::Call(pending) => pending,
        Progress::Finished(result) => panic!("finished early: {result:?}"),
    }
}

fn finished(progress: Progress) -> Result<ExecutionReport, ExecutionError> {
    match progress {
        Progress::Finished(result) => result,
        Progress::Call(pending) => panic!("one more request: {:?}", pending.request),
    }
}

fn text(body: &[u8]) -> String {
    String::from_utf8(body.to_vec()).unwrap()
}

#[test]
fn no_action_makes_no_request() {
    let progress = plugin().take_action(TakeAction::none(), message("hello", 0), NOW);
    assert_eq!(
        finished(progress),
        Ok(ExecutionReport {
            message: StepOutcome::Skipped,
            user: StepOutcome::Skipped,
            report: StepOutcome::Skipped,
        })
    );
}

#[test]
fn message_without_broken_rule_makes_no_request() {
    let progress = plugin().validate_message(message("hello", 9), NOW);
    assert_eq!(finished(progress), Ok(ExecutionReport::nothing()));
    let progress = plugin().validate_message(message("", 3), NOW);
    assert_eq!(finished(progress), Ok(ExecutionReport::nothing()));
}

#[test]
fn exempt_author_makes_no_request() {
    let mut plugin = plugin();
    plugin.settings.bypass = Some(discord_plugins::settings::PluginSettingsBypass {
        users: vec![44],
        roles: vec![],
    });
    let progress = plugin.validate_message(message("", 50), NOW);
    assert_eq!(finished(progress), Ok(ExecutionReport::nothing()));
}

#[test]
fn attachment_spam_end_to_end() {
    let plugin = plugin();
    let first = pending(plugin.validate_message(message("", 5), NOW));
    assert_eq!(first.stage, Stage::Message);
    assert_eq!(first.request, Requests::DeleteMessage { channel_id: 22, message_id: 11 });
    assert_eq!(
        first.take_action,
        TakeAction {
            report: Some(String::from("- Attachment spam (5), without message content")),
            message: Some(ActionsMessage::Delete),
            user: Some(ActionsUser::TimeOut(60)),
        }
    );

    let second = pending(plugin.resume(first, Ok(()), NOW));
    assert_eq!(second.stage, Stage::User);
    match &second.request {
        Requests::UpdateMember { guild_id, user_id, until, body } => {
            assert_eq!((*guild_id, *user_id), (33, 44));
            assert_eq!(*until, 1_700_000_060);
            assert_eq!(
                text(body),
                "{\"communication_disabled_until\":\"2023-11-14T22:14:20.000000+00:00\"}"
            );
        }
        other => panic!("not a time-out: {other:?}"),
    }

    let third = pending(plugin.resume(second, Ok(()), NOW + 1));
    assert_eq!(third.stage, Stage::Report);
    match &third.request {
        Requests::CreateMessage { channel_id, embed, body } => {
            assert_eq!(*channel_id, 900);
            assert_eq!(
                embed.description.as_deref().unwrap(),
                "**Reasons:**\n- Attachment spam (5), without message content\n\n\
                 **Actions Taken:**\n- Message deleted\n- User timed out for 60 seconds\n\n\
                 **Message:**\nNo Content\n\n\
                 https://files.example/0.png\nhttps://files.example/1.png\n\
                 https://files.example/2.png\nhttps://files.example/3.png\n\
                 https://files.example/4.png"
            );
            assert_eq!(embed.title.as_deref(), Some("Automod Report"));
            assert_eq!(embed.kind, "rich");
            assert_eq!(embed.color, Some(0x00E7_2323));
            assert_eq!(embed.author_name, "writer");
            assert_eq!(
                embed.author_icon_url,
                Some(String::from("https://cdn.discordapp.com/avatars/44/0123abcd.webp"))
            );
            assert_eq!(embed.footer, "ID: 44");
            assert_eq!(embed.timestamp, Some(1_700_000_001));
            let body = text(body);
            assert!(body.starts_with("{\"embeds\":[{"), "{body}");
            assert!(body.contains("\"title\":\"Automod Report\""), "{body}");
            assert!(body.contains("\"type\":\"rich\""), "{body}");
            assert!(body.contains("\"color\":15147811"), "{body}");
            assert!(body.contains("\"text\":\"ID: 44\""), "{body}");
            assert!(body.contains("Attachment spam (5), without message content"), "{body}");
            assert!(body.contains("\"timestamp\":\"2023-11-14T22:13:21.000000+00:00\""), "{body}");
        }
        other => panic!("not a report: {other:?}"),
    }

    let end = finished(plugin.resume(third, Ok(()), NOW + 2));
    assert_eq!(
        end,
        Ok(ExecutionReport {
            message: StepOutcome::Succeeded,
            user: StepOutcome::Succeeded,
            report: StepOutcome::Succeeded,
        })
    );
    assert_eq!(end.unwrap().first_failure(), None);
}

#[test]
fn ban_carries_the_reasons() {
    let plugin = plugin();
    let action = TakeAction {
        report: Some(String::from("- spam")),
        message: None,
        user: Some(ActionsUser::Ban),
    };
    let first = pending(plugin.take_action(action, message("buy now", 0), NOW));
    assert_eq!(first.stage, Stage::User);
    assert_eq!(
        first.request,
        Requests::CreateBan {
            guild_id: 33,
            user_id: 44,
            reason: Some(String::from("- spam")),
            body: b"{\"delete_message_seconds\":null}".to_vec(),
        }
    );
    let second = pending(plugin.resume(first, Ok(()), NOW));
    match &second.request {
        Requests::CreateMessage { embed, .. } => assert_eq!(
            embed.description.as_deref().unwrap(),
            "**Reasons:**\n- spam\n\n**Actions Taken:**\n- User banned\n\n\
             **Message:**\nbuy now\n\nNo Attachments"
        ),
        other => panic!("not a report: {other:?}"),
    }
}

#[test]
fn ban_without_reasons_carries_none() {
    assert_eq!(
        Plugin::ban_user(None, &message("x", 0)),
        Ok(Requests::CreateBan {
            guild_id: 33,
            user_id: 44,
            reason: None,
            body: b"{\"delete_message_seconds\":null}".to_vec(),
        })
    );
    let action = TakeAction { report: None, message: None, user: Some(ActionsUser::Ban) };
    let plugin = plugin();
    let first = pending(plugin.take_action(action, message("x", 0), NOW));
    match &first.request {
        Requests::CreateBan { reason, .. } => assert_eq!(*reason, None),
        other => panic!("not a ban: {other:?}"),
    }
    let end = finished(plugin.resume(first, Ok(()), NOW));
    assert_eq!(
        end,
        Ok(ExecutionReport {
            message: StepOutcome::Skipped,
            user: StepOutcome::Succeeded,
            report: StepOutcome::Skipped,
        })
    );
}

#[test]
fn ban_with_too_long_a_reason_is_refused() {
    let long = "r".repeat(513);
    assert_eq!(
        Plugin::ban_user(Some(&long), &message("x", 0)),
        Err(String::from(
            "An error occured while creating the create ban request: \
             request fields have invalid values"
        ))
    );
    let fits = "\u{e9}".repeat(512);
    assert_eq!(
        Plugin::ban_user(Some(&fits), &message("x", 0)),
        Ok(Requests::CreateBan {
            guild_id: 33,
            user_id: 44,
            reason: Some(fits.clone()),
            body: b"{\"delete_message_seconds\":null}".to_vec(),
        })
    );
}

#[test]
fn failed_steps_are_marked_and_the_notice_still_goes_out() {
    let plugin = plugin();
    let first = pending(plugin.validate_message(message("", 4), NOW));
    let second = pending(plugin.resume(first, Err(String::from("missing permission")), NOW));
    assert_eq!(second.stage, Stage::User);
    assert_eq!(second.outcomes.message, StepOutcome::Failed(String::from("missing permission")));
    let third = pending(plugin.resume(second, Err(String::from("rate limited")), NOW));
    assert_eq!(third.stage, Stage::Report);
    match &third.request {
        Requests::CreateMessage { embed, .. } => assert!(
            embed.description.as_deref().unwrap().contains(
                "**Actions Taken:**\n- Message deleted (failed)\n\
                 - User timed out for 60 seconds (failed)\n\n**Message:**"
            ),
            "{:?}",
            embed.description
        ),
        other => panic!("not a report: {other:?}"),
    }
    let report = finished(plugin.resume(third, Ok(()), NOW)).unwrap();
    assert_eq!(
        report,
        ExecutionReport {
            message: StepOutcome::Failed(String::from("missing permission")),
            user: StepOutcome::Failed(String::from("rate limited")),
            report: StepOutcome::Succeeded,
        }
    );
    assert_eq!(
        report.first_failure(),
        Some((Stage::Message, String::from("missing permission")))
    );
}

#[test]
fn failed_notice_fails_the_action() {
    let plugin = plugin();
    let first = pending(plugin.validate_message(message("", 4), NOW));
    let second = pending(plugin.resume(first, Ok(()), NOW));
    let third = pending(plugin.resume(second, Ok(()), NOW));
    let end = finished(plugin.resume(third, Err(String::from("no such channel")), NOW));
    assert_eq!(
        end,
        Err(ExecutionError {
            stage: Stage::Report,
            error: String::from("no such channel"),
            outcomes: ExecutionReport {
                message: StepOutcome::Succeeded,
                user: StepOutcome::Succeeded,
                report: StepOutcome::Failed(String::from("no such channel")),
            },
        })
    );
}

#[test]
fn action_without_reasons_sends_no_notice() {
    let plugin = plugin();
    let action = TakeAction { report: None, message: Some(ActionsMessage::Delete), user: None };
    let first = pending(plugin.take_action(action, message("", 4), NOW));
    let end = finished(plugin.resume(first, Err(String::from("gone")), NOW));
    let report = end.unwrap();
    assert_eq!(report.message, StepOutcome::Failed(String::from("gone")));
    assert_eq!(report.report, StepOutcome::Skipped);
    assert_eq!(report.first_failure(), Some((Stage::Message, String::from("gone"))));
}

#[test]
fn notice_without_a_channel_fails_without_a_request() {
    let plugin = Plugin { settings: PluginSettings::default() };
    let action = TakeAction { report: Some(String::from("- why")), message: None, user: None };
    let end = finished(plugin.take_action(action, message("x", 0), NOW));
    let failure = end.unwrap_err();
    assert_eq!(failure.stage, Stage::Report);
    assert_eq!(
        failure.error,
        "An error occured while creating the report create message request: \
         the report channel is not configured"
    );
    assert_eq!(failure.outcomes.report, StepOutcome::Failed(failure.error.clone()));
}

fn notice(plugin: &Plugin, content: &str) -> Result<Requests, String> {
    let action = TakeAction { report: Some(String::from("- why")), message: None, user: None };
    plugin.report("- why", &action, &ExecutionReport::nothing(), &message(content, 0), NOW)
}

#[test]
fn notice_that_is_too_long_is_refused_by_the_platform_crate() {
    let plugin = plugin();
    let action = TakeAction { report: Some(String::from("- why")), message: None, user: None };
    let end = finished(plugin.take_action(action, message(&"x".repeat(5000), 0), NOW));
    let failure = end.unwrap_err();
    assert_eq!(failure.stage, Stage::Report);
    assert_eq!(
        failure.error,
        "An error occured while creating the report create message request: \
         request fields have invalid values"
    );
}

#[test]
fn notice_of_4096_characters_is_the_longest() {
    let plugin = plugin();
    let around = "**Reasons:**\n- why\n\n**Actions Taken:**\n\n**Message:**\n\n\nNo Attachments";
    let room = 4096 - around.chars().count();
    match notice(&plugin, &"x".repeat(room)).unwrap() {
        Requests::CreateMessage { embed, .. } => {
            assert_eq!(embed.description.unwrap().chars().count(), 4096)
        }
        other => panic!("not a report: {other:?}"),
    }
    assert_eq!(
        notice(&plugin, &"x".repeat(room + 1)),
        Err(String::from(
            "An error occured while creating the report create message request: \
             request fields have invalid values"
        ))
    );
}

#[test]
fn notice_of_more_than_6000_bytes_is_refused() {
    let plugin = plugin();
    assert!(notice(&plugin, &"\u{e9}".repeat(2000)).is_ok());
    assert!(notice(&plugin, &"\u{e9}".repeat(3000)).is_err());
    let fixed = "writer".len()
        + "ID: 44".len()
        + "Automod Report".len()
        + "**Reasons:**\n- why\n\n**Actions Taken:**\n\n**Message:**\n\n\nNo Attachments".len();
    let room = (6000 - fixed) / 2;
    assert!(notice(&plugin, &"\u{e9}".repeat(room)).is_ok());
    assert!(notice(&plugin, &"\u{e9}".repeat(room + 1)).is_err());
}

#[test]
fn notice_with_an_author_name_of_more_than_256_characters_is_refused() {
    let plugin = plugin();
    let action = TakeAction { report: Some(String::from("- why")), message: None, user: None };
    let mut named = message("x", 0);
    named.author_name = "n".repeat(256);
    assert!(plugin.report("- why", &action, &ExecutionReport::nothing(), &named, NOW).is_ok());
    named.author_name = "n".repeat(257);
    assert_eq!(
        plugin.report("- why", &action, &ExecutionReport::nothing(), &named, NOW),
        Err(String::from(
            "An error occured while creating the report create message request: \
             request fields have invalid values"
        ))
    );
}

#[test]
fn author_outside_a_guild_cannot_be_timed_out() {
    let plugin = plugin();
    let mut direct = message("", 4);
    direct.guild_id = None;
    let first = pending(plugin.validate_message(direct, NOW));
    assert_eq!(first.stage, Stage::Message);
    let second = pending(plugin.resume(first, Ok(()), NOW));
    assert_eq!(second.stage, Stage::Report);
    assert_eq!(
        second.outcomes.user,
        StepOutcome::Failed(String::from(
            "An error occured while creating the update member request: \
             the message was not sent in a guild"
        ))
    );
    match &second.request {
        Requests::CreateMessage { embed, .. } => assert!(
            embed.description.as_deref().unwrap().contains("- User timed out for 60 seconds (failed)"),
            "{:?}",
            embed.description
        ),
        other => panic!("not a report: {other:?}"),
    }
}

#[test]
fn identifier_zero_is_refused() {
    let mut nobody = message("x", 0);
    nobody.author_id = 0;
    assert_eq!(
        Plugin::ban_user(None, &nobody),
        Err(String::from(
            "An error occured while creating the create ban request: an identifier is zero"
        ))
    );
    let mut nowhere = message("x", 0);
    nowhere.guild_id = Some(0);
    assert_eq!(
        Plugin::time_out_user(&nowhere, 60, NOW),
        Err(String::from(
            "An error occured while creating the update member request: an identifier is zero"
        ))
    );
}

#[test]
fn time_out_of_more_than_28_days_is_refused_by_the_platform_crate() {
    let now = SystemTime::now().duration_since(UNIX_EPOCH).unwrap().as_secs();
    assert_eq!(
        Plugin::time_out_user(&message("x", 0), 29 * 24 * 60 * 60, now),
        Err(String::from(
            "An error occured while creating the update member request: \
             request fields have invalid values"
        ))
    );
    let request = Plugin::time_out_user(&message("x", 0), 27 * 24 * 60 * 60, now).unwrap();
    match request {
        Requests::UpdateMember { guild_id, user_id, until, body } => {
            assert_eq!((guild_id, user_id), (33, 44));
            assert_eq!(until, (now + 27 * 24 * 60 * 60) as i64);
            assert!(text(&body).starts_with("{\"communication_disabled_until\":\""));
        }
        other => panic!("not a time-out: {other:?}"),
    }
}

#[test]
fn time_out_whose_end_cannot_be_held_is_refused() {
    let refused = Err(String::from(
        "An error occured while creating the update member request: \
         the end of the time-out is out of range",
    ));
    assert_eq!(Plugin::time_out_user(&message("x", 0), 1, u64::MAX), refused);
    assert_eq!(Plugin::time_out_user(&message("x", 0), u64::MAX, NOW), refused);
    assert_eq!(Plugin::time_out_user(&message("x", 0), i64::MAX as u64, NOW), refused);
}

#[test]
fn time_out_whose_end_cannot_be_held_fails_the_step_and_is_reported() {
    let plugin = plugin();
    let action = TakeAction {
        report: Some(String::from("- why")),
        message: None,
        user: Some(ActionsUser::TimeOut(u64::MAX)),
    };
    let first = pending(plugin.take_action(action, message("x", 0), NOW));
    assert_eq!(first.stage, Stage::Report);
    assert_eq!(
        first.outcomes.user,
        StepOutcome::Failed(String::from(
            "An error occured while creating the update member request: \
             the end of the time-out is out of range"
        ))
    );
    match &first.request {
        Requests::CreateMessage { embed, .. } => assert!(
            embed
                .description
                .as_deref()
                .unwrap()
                .contains("- User timed out for 18446744073709551615 seconds (failed)"),
            "{:?}",
            embed.description
        ),
        other => panic!("not a report: {other:?}"),
    }
}

#[test]
fn time_out_end_is_now_plus_period() {
    assert_eq!(time_out_end(1_700_000_000, 60), Some(1_700_000_060));
    assert_eq!(time_out_end(0, 0), Some(0));
    assert_eq!(time_out_end(5, 10), Some(15));
    assert_eq!(time_out_end(253_402_300_000, 799), Some(253_402_300_799));
}

#[test]
fn time_out_end_that_no_timestamp_holds_is_none() {
    assert_eq!(time_out_end(u64::MAX, 1), None);
    assert_eq!(time_out_end(u64::MAX - 5, 2), None);
    assert_eq!(time_out_end(i64::MAX as u64, 1), None);
    assert_eq!(time_out_end(1, i64::MAX as u64 - 1), None);
    assert_eq!(timestamp_of(u64::MAX), None);
    assert_eq!(timestamp_of(1_000_000_000_000_000_000), None);
    assert_eq!(timestamp_of(1_700_000_000), Some(1_700_000_000));
    assert_eq!(timestamp_of(0), Some(0));
    assert_eq!(timestamp_of(253_402_300_799), Some(253_402_300_799));
}

#[test]
fn notice_at_a_time_that_cannot_be_held_carries_no_time() {
    let embed = Plugin::base_embed(&message("x", 0), u64::MAX);
    assert_eq!(embed.timestamp, None);
    let plugin = plugin();
    let action = TakeAction { report: Some(String::from("- why")), message: None, user: None };
    let request = plugin
        .report("- why", &action, &ExecutionReport::nothing(), &message("x", 0), u64::MAX)
        .unwrap();
    match request {
        Requests::CreateMessage { embed, body, .. } => {
            assert_eq!(embed.timestamp, None);
            assert!(!text(&body).contains("\"timestamp\""), "{}", text(&body));
        }
        other => panic!("not a report: {other:?}"),
    }
}

#[test]
fn time_out_request_from_the_encoder_s_answer() {
    assert_eq!(
        time_out_request(3, 4, 99, Ok(vec![1, 2, 3])),
        Ok(Requests::UpdateMember { guild_id: 3, user_id: 4, until: 99, body: vec![1, 2, 3] })
    );
    assert_eq!(
        time_out_request(3, 4, 99, Err(String::from("too far"))),
        Err(String::from("An error occured while creating the update member request: too far"))
    );
}

#[test]
fn delete_request_names_channel_and_message() {
    assert_eq!(
        Plugin::delete_message(&message("x", 0)),
        Requests::DeleteMessage { channel_id: 22, message_id: 11 }
    );
}

#[test]
fn base_embed_without_avatar_has_no_icon() {
    let mut plain = message("x", 0);
    plain.author_avatar = None;
    let embed = Plugin::base_embed(&plain, NOW);
    assert_eq!(embed.author_icon_url, None);
    assert_eq!(embed.description, None);
    assert_eq!(embed.timestamp, Some(NOW as i64));
    assert_eq!(embed.duplicate(), embed);
}
