//! The plugin: one snapshot of the settings, how it comes to be, and what it
//! does with an event.

use crate::executor::{message_stage, Progress, ProgressView};
use crate::message::{Message, MessageView};
use crate::outcome::nothing_done;
use crate::platform::{channel_json, decode_channel, decode_message_create, message_create_json};
use crate::requests::{Requests, RequestsView};
use crate::rules::{candidates, consolidated, is_exempt};
use crate::settings::PluginSettings;
use crate::text::joined;
use vstd::prelude::*;

verus! {

/// The moderation plugin. It holds the settings that were in force when it
/// was made; a change of settings makes a new plugin.
#[derive(Clone, Debug, PartialEq, Eq)]
pub struct Plugin {
    pub settings: PluginSettings,
}

/// An event of the chat platform, as the host delivers it: its kind and its
/// JSON text.
#[derive(Debug, PartialEq, Eq)]
pub enum DiscordEvents {
    InteractionCreate(Vec<u8>),
    MessageCreate(Vec<u8>),
    ThreadCreate(Vec<u8>),
    ThreadDelete(Vec<u8>),
    ThreadListSync(Vec<u8>),
    ThreadMemberUpdate(Vec<u8>),
    ThreadMembersUpdate(Vec<u8>),
    ThreadUpdate(Vec<u8>),
}

/// The kinds of event that a plugin asks its host to deliver.
#[derive(Clone, Copy, Debug, PartialEq, Eq, Structural)]
pub struct RegistrationsRequestDiscordEvents {
    pub interaction_create: bool,
    pub message_create: bool,
    pub thread_create: bool,
    pub thread_delete: bool,
    pub thread_list_sync: bool,
    pub thread_member_update: bool,
    pub thread_members_update: bool,
    pub thread_update: bool,
}

/// What a plugin asks of its host when it starts.
#[derive(Clone, Copy, Debug, PartialEq, Eq, Structural)]
pub struct RegistrationsRequest {
    pub discord_events: Option<RegistrationsRequestDiscordEvents>,
    pub scheduled_jobs: bool,
    pub dependency_functions: bool,
}

/// Why the plugin cannot start.
#[derive(Debug, PartialEq, Eq)]
pub enum ConfigurationError {
    /// The host does not deliver the messages that are created.
    MessageCreateUnsupported,
    /// The settings could not be read.
    Settings(String),
    /// The platform refused to tell about the moderators' channel.
    ChannelRequest(String),
    /// The platform answered, but told nothing about the moderators' channel.
    ChannelMissing,
    /// What the platform told about the moderators' channel is no channel.
    ChannelDecode(String),
}

/// The mathematical value of a [`ConfigurationError`].
pub enum ConfigurationErrorView {
    MessageCreateUnsupported,
    Settings(Seq<char>),
    ChannelRequest(Seq<char>),
    ChannelMissing,
    ChannelDecode(Seq<char>),
}

impl View for ConfigurationError {
    type V = ConfigurationErrorView;

    open spec fn view(&self) -> ConfigurationErrorView {
        match *self {
            ConfigurationError::MessageCreateUnsupported => ConfigurationErrorView::MessageCreateUnsupported,
            ConfigurationError::Settings(error) => ConfigurationErrorView::Settings(error@),
            ConfigurationError::ChannelRequest(error) => ConfigurationErrorView::ChannelRequest(
                error@,
            ),
            ConfigurationError::ChannelMissing => ConfigurationErrorView::ChannelMissing,
            ConfigurationError::ChannelDecode(error) => ConfigurationErrorView::ChannelDecode(error@),
        }
    }
}

/// A plugin that is about to start: its settings were read, and the platform
/// is to confirm the moderators' channel.
#[derive(Clone, Debug, PartialEq, Eq)]
pub struct PendingInitialization {
    pub settings: PluginSettings,
}

/// The text of a configuration error, as the host shows it.
pub open spec fn configuration_error_message(error: ConfigurationErrorView) -> Seq<char> {
    match error {
        ConfigurationErrorView::MessageCreateUnsupported =>
            "This plugin requires the MESSAGE_CREATE event to be enabled."@,
        ConfigurationErrorView::Settings(error) =>
            "The provided settings were of the incorrect structure: "@ + error,
        ConfigurationErrorView::ChannelRequest(error) =>
            "An error occured while trying to get information of the automod channel: "@ + error,
        ConfigurationErrorView::ChannelMissing =>
            "The platform returned no information about the automod channel."@,
        ConfigurationErrorView::ChannelDecode(error) =>
            "An error occured while deserializing the get channel response from Discord: "@
                + error,
    }
}

/// What the moderation plugin asks of its host: the messages that are
/// created, and nothing else.
pub open spec fn spec_registrations() -> RegistrationsRequest {
    RegistrationsRequest {
        discord_events: Some(
            RegistrationsRequestDiscordEvents {
                interaction_create: false,
                message_create: true,
                thread_create: false,
                thread_delete: false,
                thread_list_sync: false,
                thread_member_update: false,
                thread_members_update: false,
                thread_update: false,
            },
        ),
        scheduled_jobs: false,
        dependency_functions: false,
    }
}

/// What the platform's answer to the question about the moderators' channel
/// means for the start of the plugin.
pub open spec fn channel_check(response: Result<Option<Seq<u8>>, Seq<char>>) -> Result<
    (),
    ConfigurationErrorView,
> {
    match response {
        Err(error) => Err(ConfigurationErrorView::ChannelRequest(error)),
        Ok(None) => Err(ConfigurationErrorView::ChannelMissing),
        Ok(Some(body)) => match channel_json(body) {
            Ok(()) => Ok(()),
            Err(error) => Err(ConfigurationErrorView::ChannelDecode(error)),
        },
    }
}

/// The view of the platform's answer to a request that returns a body.
pub open spec fn response_view(response: Result<Option<Vec<u8>>, String>) -> Result<
    Option<Seq<u8>>,
    Seq<char>,
> {
    match response {
        Ok(Some(body)) => Ok(Some(body@)),
        Ok(None) => Ok(None),
        Err(error) => Err(error@),
    }
}

/// Where the moderation of `message` begins: at the first request of the
/// action that its broken rules add up to, or at the end where there is none.
/// `accepted` tells whether the platform crate accepts a time-out.
pub open spec fn validated(
    settings: PluginSettings,
    message: MessageView,
    now: u64,
    accepted: bool,
) -> ProgressView {
    message_stage(settings, consolidated(settings, message), message, now, accepted)
}

impl ConfigurationError {
    /// The text of the error, as the host shows it.
    pub fn message(&self) -> (text: String)
        ensures
            text@ == configuration_error_message(self@),
    {
        match self {
            ConfigurationError::MessageCreateUnsupported => String::from_str(
                "This plugin requires the MESSAGE_CREATE event to be enabled.",
            ),
            ConfigurationError::Settings(error) => joined(
                "The provided settings were of the incorrect structure: ",
                error.as_str(),
            ),
            ConfigurationError::ChannelRequest(error) => joined(
                "An error occured while trying to get information of the automod channel: ",
                error.as_str(),
            ),
            ConfigurationError::ChannelMissing => String::from_str(
                "The platform returned no information about the automod channel.",
            ),
            ConfigurationError::ChannelDecode(error) => joined(
                "An error occured while deserializing the get channel response from Discord: ",
                error.as_str(),
            ),
        }
    }
}

impl PendingInitialization {
    /// The request that asks the platform about the moderators' channel.
    pub fn request(&self) -> (request: Requests)
        ensures
            request@ == (RequestsView::GetChannel { channel_id: self.settings.automod_channel_id }),
    {
        Requests::GetChannel { channel_id: self.settings.automod_channel_id }
    }

    /// Ends the start of the plugin with the platform's answer about the
    /// moderators' channel. The plugin starts, with the settings that were
    /// read, exactly where the platform answered with something that decodes
    /// as a channel; it then asks its host for created messages only.
    pub fn complete(self, response: Result<Option<Vec<u8>>, String>) -> (started: Result<
        (Plugin, RegistrationsRequest),
        ConfigurationError,
    >)
        ensures
            match started {
                Ok((plugin, registrations)) => channel_check(response_view(response)) is Ok
                    && plugin.settings == self.settings && registrations == spec_registrations(),
                Err(error) => channel_check(response_view(response)) == Err::<
                    (),
                    ConfigurationErrorView,
                >(error@),
            },
    {
        let body = match response {
            Err(error) => {
                return Err(ConfigurationError::ChannelRequest(error));
            },
            Ok(None) => {
                return Err(ConfigurationError::ChannelMissing);
            },
            Ok(Some(body)) => body,
        };
        if let Err(error) = decode_channel(body.as_slice()) {
            return Err(ConfigurationError::ChannelDecode(error));
        }
        Ok(
            (
                Plugin { settings: self.settings },
                RegistrationsRequest {
                    discord_events: Some(
                        RegistrationsRequestDiscordEvents {
                            interaction_create: false,
                            message_create: true,
                            thread_create: false,
                            thread_delete: false,
                            thread_list_sync: false,
                            thread_member_update: false,
                            thread_members_update: false,
                            thread_update: false,
                        },
                    ),
                    scheduled_jobs: false,
                    dependency_functions: false,
                },
            ),
        )
    }
}

impl Plugin {
    /// Begins the start of the plugin. `message_create_supported` tells
    /// whether the host delivers created messages; `settings` is what reading
    /// the settings gave. A host without created messages is refused before
    /// the settings are looked at.
    pub fn initialization(
        message_create_supported: bool,
        settings: Result<PluginSettings, String>,
    ) -> (pending: Result<PendingInitialization, ConfigurationError>)
        ensures
            match pending {
                Ok(pending) => message_create_supported && settings == Ok::<
                    PluginSettings,
                    String,
                >(pending.settings),
                Err(error) => if !message_create_supported {
                    error@ == ConfigurationErrorView::MessageCreateUnsupported
                } else {
                    settings matches Err(unread) && error@ == ConfigurationErrorView::Settings(
                        unread@,
                    )
                },
            },
    {
        if !message_create_supported {
            return Err(ConfigurationError::MessageCreateUnsupported);
        }
        match settings {
            Ok(settings) => Ok(PendingInitialization { settings }),
            Err(error) => Err(ConfigurationError::Settings(error)),
        }
    }

    /// Moderates one message: decides what is done about it and begins to do
    /// it. `now` is the time in seconds since the Unix epoch.
    ///
    /// Nothing is requested of the platform for a message whose author is
    /// exempt, nor for one that breaks no rule.
    pub fn validate_message(&self, message: Message, now: u64) -> (progress: Progress)
        ensures
            exists|accepted: bool|
                progress@ == #[trigger] validated(self.settings, message@, now, accepted),
            is_exempt(self.settings.bypass, message@.author_id, message@.member_roles)
                ==> progress@ == ProgressView::Finished(Ok(nothing_done())),
            candidates(self.settings, message@).len() == 0 ==> progress@ == ProgressView::Finished(
                Ok(nothing_done()),
            ),
    {
        let take_action = self.consolidate(&message);
        let ghost before = (take_action@, message@);
        let progress = self.take_action(take_action, message, now);
        proof {
            let answer = choose|accepted: bool|
                progress@ == #[trigger] message_stage(
                    self.settings,
                    before.0,
                    before.1,
                    now,
                    accepted,
                );
            assert(progress@ == validated(self.settings, before.1, now, answer));
        }
        progress
    }

    /// Handles one event of the platform. The plugin asks for created
    /// messages only, so it is given nothing else. A message that does not
    /// decode is rejected with the decoder's error before anything is
    /// evaluated; one that decodes is moderated.
    pub fn discord_event(&self, event: &DiscordEvents, now: u64) -> (progress: Result<
        Progress,
        String,
    >)
        requires
            event is MessageCreate,
        ensures
            match message_create_json(event->MessageCreate_0@) {
                Err(error) => progress matches Err(text) && text@ == error,
                Ok(message) => progress matches Ok(begun) && exists|
                    accepted: bool,
                |
                    begun@ == #[trigger] validated(self.settings, message, now, accepted),
            },
    {
        match event {
            DiscordEvents::MessageCreate(message_create_bytes) => {
                match decode_message_create(message_create_bytes.as_slice()) {
                    Ok(message_create) => Ok(self.validate_message(message_create, now)),
                    Err(error) => Err(error),
                }
            },
            _ => Err(String::new()),
        }
    }
}

} // verus!
