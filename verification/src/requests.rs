//! The requests that the plugin hands to the chat platform.

use crate::message::opt_view;
use vstd::prelude::*;

verus! {

/// The notice that is sent to the moderators.
#[derive(Debug, PartialEq, Eq)]
pub struct Embed {
    pub author_name: String,
    pub author_icon_url: Option<String>,
    /// The colour of the marker beside the notice, as red, green and blue.
    pub color: Option<u32>,
    pub description: Option<String>,
    pub footer: String,
    pub kind: String,
    /// The time of the notice, in seconds since the Unix epoch.
    pub timestamp: Option<i64>,
    pub title: Option<String>,
}

/// The mathematical value of an [`Embed`].
pub struct EmbedView {
    pub author_name: Seq<char>,
    pub author_icon_url: Option<Seq<char>>,
    pub color: Option<u32>,
    pub description: Option<Seq<char>>,
    pub footer: Seq<char>,
    pub kind: Seq<char>,
    pub timestamp: Option<i64>,
    pub title: Option<Seq<char>>,
}

impl View for Embed {
    type V = EmbedView;

    open spec fn view(&self) -> EmbedView {
        EmbedView {
            author_name: self.author_name@,
            author_icon_url: opt_view(self.author_icon_url),
            color: self.color,
            description: opt_view(self.description),
            footer: self.footer@,
            kind: self.kind@,
            timestamp: self.timestamp,
            title: opt_view(self.title),
        }
    }
}

/// A second string with the same text, where there is one.
fn duplicate_text(text: &Option<String>) -> (copy: Option<String>)
    ensures
        opt_view(copy) == opt_view(*text),
{
    match text {
        Some(text) => Some(text.clone()),
        None => None,
    }
}

impl Embed {
    /// A second notice with the same contents.
    pub fn duplicate(&self) -> (copy: Embed)
        ensures
            copy@ == self@,
    {
        Embed {
            author_name: self.author_name.clone(),
            author_icon_url: duplicate_text(&self.author_icon_url),
            color: self.color,
            description: duplicate_text(&self.description),
            footer: self.footer.clone(),
            kind: self.kind.clone(),
            timestamp: self.timestamp,
            title: duplicate_text(&self.title),
        }
    }
}

/// One request to the chat platform. Where the platform wants a body, `body`
/// holds it as encoded JSON, and the fields beside it say what was encoded.
#[derive(Debug, PartialEq, Eq)]
pub enum Requests {
    GetChannel { channel_id: u64 },
    DeleteMessage { channel_id: u64, message_id: u64 },
    /// Times a member out until `until`, in seconds since the Unix epoch.
    UpdateMember { guild_id: u64, user_id: u64, until: i64, body: Vec<u8> },
    /// Bans a member, with the reason that goes to the audit log, if any.
    CreateBan { guild_id: u64, user_id: u64, reason: Option<String>, body: Vec<u8> },
    CreateMessage { channel_id: u64, embed: Embed, body: Vec<u8> },
}

/// The mathematical value of a [`Requests`].
pub enum RequestsView {
    GetChannel { channel_id: u64 },
    DeleteMessage { channel_id: u64, message_id: u64 },
    UpdateMember { guild_id: u64, user_id: u64, until: i64, body: Seq<u8> },
    CreateBan { guild_id: u64, user_id: u64, reason: Option<Seq<char>>, body: Seq<u8> },
    CreateMessage { channel_id: u64, embed: EmbedView, body: Seq<u8> },
}

impl View for Requests {
    type V = RequestsView;

    open spec fn view(&self) -> RequestsView {
        match *self {
            Requests::GetChannel { channel_id } => RequestsView::GetChannel { channel_id },
            Requests::DeleteMessage { channel_id, message_id } => RequestsView::DeleteMessage {
                channel_id,
                message_id,
            },
            Requests::UpdateMember { guild_id, user_id, until, body } => RequestsView::UpdateMember {
                guild_id,
                user_id,
                until,
                body: body@,
            },
            Requests::CreateBan { guild_id, user_id, reason, body } => RequestsView::CreateBan {
                guild_id,
                user_id,
                reason: opt_view(reason),
                body: body@,
            },
            Requests::CreateMessage { channel_id, embed, body } => RequestsView::CreateMessage {
                channel_id,
                embed: embed@,
                body: body@,
            },
        }
    }
}

/// The view of a request, or of the reason why there is none.
pub open spec fn request_view(r: Result<Requests, String>) -> Result<RequestsView, Seq<char>> {
    match r {
        Ok(request) => Ok(request@),
        Err(error) => Err(error@),
    }
}

/// The view of an encoded body, or of the encoder's complaint.
pub open spec fn encoded_view(r: Result<Vec<u8>, String>) -> Result<Seq<u8>, Seq<char>> {
    match r {
        Ok(body) => Ok(body@),
        Err(error) => Err(error@),
    }
}

} // verus!
