use discord_plugins::action::TakeAction;
use discord_plugins::executor::Progress;
use discord_plugins::outcome::ExecutionReport;
use discord_plugins::plugin::{
    ConfigurationError, DiscordEvents, Plugin, RegistrationsRequest,
    RegistrationsRequestDiscordEvents,
};
use discord_plugins::requests::Requests;
use discord_plugins::settings::{ActionsMessage, ActionsUser, PluginSettings};

const NOW: u64 = 1_700_000_000;

fn settings(channel: u64) -> PluginSettings {
    let mut settings = PluginSettings::default();
    settings.automod_channel_id = channel;
    settings
}

fn message_json(content: &str, attachments: usize) -> Vec<u8> {
    let files: Vec<String> = (0..attachments)
        .map(|i| {
            format!(
                "{{\"id\":\"{}\",\"filename\":\"f{i}.png\",\"size\":10,\
                 \"url\":\"https://files.example/{i}.png\",\
                 \"proxy_url\":\"https://proxy.example/{i}.png\"}}",
                700 + i
            )
        })
        .collect();
    format!(
        "{{\"id\":\"11\",\"channel_id\":\"22\",\"guild_id\":\"33\",\
         \"author\":{{\"id\":\"44\",\"username\":\"writer\",\"discriminator\":\"0\",\
         \"avatar\":\"5bf451026c107906b4dccea015320222\"}},\
         \"member\":{{\"roles\":[\"5\",\"6\"],\"joined_at\":\"2020-01-01T00:00:00.000000+00:00\",\
         \"deaf\":false,\"mute\":false,\"flags\":0}},\
         \"content\":\"{content}\",\"timestamp\":\"2023-11-14T22:13:20.000000+00:00\",\
         \"edited_timestamp\":null,\"tts\":false,\"mention_everyone\":false,\"mentions\":[],\
         \"mention_roles\":[],\"attachments\":[{}],\"embeds\":[],\"pinned\":false,\"type\":0}}",
        files.join(",")
    )
    .into_bytes()
}

#[test]
fn host_without_created_messages_is_refused() {
    let error = Plugin::initialization(false, Ok(settings(5))).unwrap_err();
    assert_eq!(error, ConfigurationError::MessageCreateUnsupported);
    assert_eq!(error.message(), "This plugin requires the MESSAGE_CREATE event to be enabled.");
    let error = Plugin::initialization(false, Err(String::from("bad"))).unwrap_err();
    assert_eq!(error, ConfigurationError::MessageCreateUnsupported);
}

#[test]
fn unreadable_settings_are_refused() {
    let error = Plugin::initialization(true, Err(String::from("missing field"))).unwrap_err();
    assert_eq!(error, ConfigurationError::Settings(String::from("missing field")));
    assert_eq!(
        error.message(),
        "The provided settings were of the incorrect structure: missing field"
    );
}

#[test]
fn initialization_asks_about_the_channel() {
    let pending = Plugin::initialization(true, Ok(settings(900))).unwrap();
    assert_eq!(pending.settings, settings(900));
    assert_eq!(pending.request(), Requests::GetChannel { channel_id: 900 });
}

#[test]
fn refused_channel_request_stops_the_start() {
    let pending = Plugin::initialization(true, Ok(settings(900))).unwrap();
    let error = pending.complete(Err(String::from("404"))).unwrap_err();
    assert_eq!(error, ConfigurationError::ChannelRequest(String::from("404")));
    assert_eq!(
        error.message(),
        "An error occured while trying to get information of the automod channel: 404"
    );
}

#[test]
fn empty_channel_answer_stops_the_start() {
    let pending = Plugin::initialization(true, Ok(settings(900))).unwrap();
    let error = pending.complete(Ok(None)).unwrap_err();
    assert_eq!(error, ConfigurationError::ChannelMissing);
    assert_eq!(error.message(), "The platform returned no information about the automod channel.");
}

#[test]
fn answer_that_is_no_channel_stops_the_start() {
    let pending = Plugin::initialization(true, Ok(settings(900))).unwrap();
    let error = pending.complete(Ok(Some(b"{\"id\":".to_vec()))).unwrap_err();
    match &error {
        ConfigurationError::ChannelDecode(why) => assert!(!why.is_empty()),
        other => panic!("not a decoding error: {other:?}"),
    }
    assert!(
        error.message().starts_with(
            "An error occured while deserializing the get channel response from Discord: "
        ),
        "{}",
        error.message()
    );
    let pending = Plugin::initialization(true, Ok(settings(900))).unwrap();
    assert!(pending.complete(Ok(Some(b"[1,2]".to_vec()))).is_err());
}

#[test]
fn channel_answer_starts_the_plugin() {
    let pending = Plugin::initialization(true, Ok(settings(900))).unwrap();
    let (plugin, registrations) =
        pending.complete(Ok(Some(b"{\"id\":\"900\",\"type\":0}".to_vec()))).unwrap();
    assert_eq!(plugin.settings, settings(900));
    assert_eq!(
        registrations,
        RegistrationsRequest {
            discord_events: Some(RegistrationsRequestDiscordEvents {
                interaction_create: false,
                message_create: true,
                thread_create: false,
                thread_delete: false,
                thread_list_sync: false,
                thread_member_update: false,
                thread_members_update: false,
                thread_update: false,
            }),
            scheduled_jobs: false,
            dependency_functions: false,
        }
    );
}

#[test]
fn event_that_does_not_decode_is_rejected() {
    let plugin = Plugin { settings: settings(900) };
    let event = DiscordEvents::MessageCreate(b"{\"id\":\"11\"}".to_vec());
    let error = plugin.discord_event(&event, NOW).unwrap_err();
    assert!(!error.is_empty());
    let event = DiscordEvents::MessageCreate(Vec::new());
    assert!(plugin.discord_event(&event, NOW).is_err());
}

#[test]
fn harmless_event_makes_no_request() {
    let plugin = Plugin { settings: settings(900) };
    let event = DiscordEvents::MessageCreate(message_json("hello there", 6));
    let progress = plugin.discord_event(&event, NOW).unwrap();
    assert_eq!(progress, Progress::Finished(Ok(ExecutionReport::nothing())));
}

#[test]
fn spam_event_is_decoded_and_moderated() {
    let plugin = Plugin { settings: settings(900) };
    let event = DiscordEvents::MessageCreate(message_json("", 4));
    let pending = match plugin.discord_event(&event, NOW).unwrap() {
        Progress::Call(pending) => pending,
        Progress::Finished(result) => panic!("finished early: {result:?}"),
    };
    assert_eq!(pending.request, Requests::DeleteMessage { channel_id: 22, message_id: 11 });
    assert_eq!(
        pending.take_action,
        TakeAction {
            report: Some(String::from("- Attachment spam (4), without message content")),
            message: Some(ActionsMessage::Delete),
            user: Some(ActionsUser::TimeOut(60)),
        }
    );
    let message = &pending.message;
    assert_eq!(message.id, 11);
    assert_eq!(message.channel_id, 22);
    assert_eq!(message.guild_id, Some(33));
    assert_eq!(message.author_id, 44);
    assert_eq!(message.author_name, "writer");
    assert_eq!(message.author_avatar, Some(String::from("5bf451026c107906b4dccea015320222")));
    assert_eq!(message.member_roles, Some(vec![5, 6]));
    assert_eq!(message.content, "");
    let urls: Vec<&str> = message.attachments.iter().map(|a| a.url.as_str()).collect();
    assert_eq!(
        urls,
        vec![
            "https://files.example/0.png",
            "https://files.example/1.png",
            "https://files.example/2.png",
            "https://files.example/3.png"
        ]
    );
}
