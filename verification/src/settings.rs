//! The configuration of the moderation plugin and its defaults.

use vstd::prelude::*;

verus! {

/// What is done to a message that broke a rule.
#[derive(Clone, Copy, Debug, PartialEq, Eq, Structural)]
pub enum ActionsMessage {
    Delete,
}

/// What is done to the author of a message that broke a rule.
#[derive(Clone, Copy, Debug, PartialEq, Eq, Structural)]
pub enum ActionsUser {
    Ban,
    /// A time-out, in seconds.
    TimeOut(u64),
}

/// The actions that one rule asks for when it triggers.
#[derive(Clone, Copy, Debug, PartialEq, Eq, Structural)]
pub struct Actions {
    pub report: bool,
    pub message: Option<ActionsMessage>,
    pub user: Option<ActionsUser>,
}

/// The rule against messages that hold attachments and no text.
#[derive(Clone, Copy, Debug, PartialEq, Eq, Structural)]
pub struct PluginSettingsAttachmentSpam {
    /// The number of attachments from which the rule triggers.
    pub count: usize,
    pub actions: Actions,
}

/// The rules; a rule that is `None` is switched off.
#[derive(Clone, Copy, Debug, PartialEq, Eq, Structural)]
pub struct PluginSettingsValidations {
    pub attachment_spam: Option<PluginSettingsAttachmentSpam>,
}

/// The users and roles that no rule applies to.
#[derive(Clone, Debug, PartialEq, Eq)]
pub struct PluginSettingsBypass {
    pub users: Vec<u64>,
    pub roles: Vec<u64>,
}

/// One snapshot of the plugin's configuration.
#[derive(Clone, Debug, PartialEq, Eq)]
pub struct PluginSettings {
    /// The channel that reports are sent to.
    pub automod_channel_id: u64,
    /// Whether the time-outs of several rules add up.
    pub stack_time_outs: bool,
    pub bypass: Option<PluginSettingsBypass>,
    pub validations: PluginSettingsValidations,
}

impl Default for ActionsMessage {
    fn default() -> (r: Self)
        ensures
            r == ActionsMessage::Delete,
    {
        ActionsMessage::Delete
    }
}

impl Default for ActionsUser {
    fn default() -> (r: Self)
        ensures
            r == ActionsUser::TimeOut(60),
    {
        ActionsUser::TimeOut(60)
    }
}

impl Actions {
    /// The actions of a rule that was configured without any: report, delete
    /// the message, and time the author out for a minute.
    pub open spec fn spec_default() -> Actions {
        Actions {
            report: true,
            message: Some(ActionsMessage::Delete),
            user: Some(ActionsUser::TimeOut(60)),
        }
    }

    pub fn report_default() -> (r: bool)
        ensures
            r,
    {
        true
    }

    pub fn message_default() -> (r: ActionsMessage)
        ensures
            r == ActionsMessage::Delete,
    {
        ActionsMessage::default()
    }

    pub fn user_default() -> (r: ActionsUser)
        ensures
            r == ActionsUser::TimeOut(60),
    {
        ActionsUser::default()
    }
}

impl Default for Actions {
    fn default() -> (r: Self)
        ensures
            r == Actions::spec_default(),
    {
        Actions {
            report: Actions::report_default(),
            message: Some(Actions::message_default()),
            user: Some(Actions::user_default()),
        }
    }
}

impl PluginSettingsAttachmentSpam {
    /// The rule as it stands where nothing was configured: it triggers from
    /// four attachments on, with the default actions.
    pub open spec fn spec_default() -> PluginSettingsAttachmentSpam {
        PluginSettingsAttachmentSpam { count: 4, actions: Actions::spec_default() }
    }

    pub fn count_default() -> (r: usize)
        ensures
            r == 4,
    {
        4
    }
}

impl Default for PluginSettingsAttachmentSpam {
    fn default() -> (r: Self)
        ensures
            r == PluginSettingsAttachmentSpam::spec_default(),
    {
        PluginSettingsAttachmentSpam {
            count: PluginSettingsAttachmentSpam::count_default(),
            actions: Actions::default(),
        }
    }
}

impl PluginSettingsValidations {
    /// Every rule switched on, each with its defaults.
    pub open spec fn spec_default() -> PluginSettingsValidations {
        PluginSettingsValidations {
            attachment_spam: Some(PluginSettingsAttachmentSpam::spec_default()),
        }
    }
}

impl Default for PluginSettingsValidations {
    fn default() -> (r: Self)
        ensures
            r == PluginSettingsValidations::spec_default(),
    {
        PluginSettingsValidations { attachment_spam: Some(PluginSettingsAttachmentSpam::default()) }
    }
}

impl PluginSettings {
    pub fn stack_time_outs_default() -> (r: bool)
        ensures
            r,
    {
        true
    }
}

impl Default for PluginSettings {
    /// The settings of a plugin that was not configured yet: no report channel,
    /// nobody exempt, every rule at its defaults.
    fn default() -> (r: Self)
        ensures
            r.automod_channel_id == 0,
            r.stack_time_outs,
            r.bypass is None,
            r.validations == PluginSettingsValidations::spec_default(),
    {
        PluginSettings {
            automod_channel_id: 0,
            stack_time_outs: PluginSettings::stack_time_outs_default(),
            bypass: None,
            validations: PluginSettingsValidations::default(),
        }
    }
}

} // verus!
