//! The incoming message, as the moderation rules read it.

use vstd::prelude::*;

verus! {

/// A file attached to a message.
#[derive(Clone, Debug, PartialEq, Eq)]
pub struct Attachment {
    pub url: String,
}

/// One chat message, reduced to what moderation reads.
#[derive(Clone, Debug, PartialEq, Eq)]
pub struct Message {
    pub id: u64,
    pub channel_id: u64,
    /// The guild the message was sent in; `None` for a direct message.
    pub guild_id: Option<u64>,
    pub author_id: u64,
    pub author_name: String,
    /// The author's avatar hash, in its textual form.
    pub author_avatar: Option<String>,
    /// The roles of the author in the guild; `None` where the message carries no membership.
    pub member_roles: Option<Vec<u64>>,
    pub content: String,
    pub attachments: Vec<Attachment>,
}

/// The mathematical value of a [`Message`].
pub struct MessageView {
    pub id: u64,
    pub channel_id: u64,
    pub guild_id: Option<u64>,
    pub author_id: u64,
    pub author_name: Seq<char>,
    pub author_avatar: Option<Seq<char>>,
    pub member_roles: Option<Seq<u64>>,
    pub content: Seq<char>,
    /// The attachment URLs, in the order of the message.
    pub attachments: Seq<Seq<char>>,
}

/// The view of an optional string.
pub open spec fn opt_view(s: Option<String>) -> Option<Seq<char>> {
    match s {
        Some(s) => Some(s@),
        None => None,
    }
}

impl View for Attachment {
    type V = Seq<char>;

    open spec fn view(&self) -> Seq<char> {
        self.url@
    }
}

impl View for Message {
    type V = MessageView;

    open spec fn view(&self) -> MessageView {
        MessageView {
            id: self.id,
            channel_id: self.channel_id,
            guild_id: self.guild_id,
            author_id: self.author_id,
            author_name: self.author_name@,
            author_avatar: opt_view(self.author_avatar),
            member_roles: match self.member_roles {
                Some(roles) => Some(roles@),
                None => None,
            },
            content: self.content@,
            attachments: self.attachments@.map_values(|a: Attachment| a@),
        }
    }
}

} // verus!
