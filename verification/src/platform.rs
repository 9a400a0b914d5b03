//! What the library takes from the crates that model the chat platform.
//!
//! Nothing in this file is proved: each function calls into an outside crate,
//! and its contract is taken on trust from that crate's source.

use crate::message::{Attachment, Message, MessageView};
use crate::requests::{encoded_view, Embed, EmbedView};
use twilight_http::request::{AuditLogReason, TryIntoRequest};
use twilight_http::Client;
use twilight_model::channel::message::embed::{EmbedAuthor, EmbedFooter};
use twilight_model::channel::message::Embed as PlatformEmbed;
use twilight_model::channel::Channel;
use twilight_model::gateway::payload::incoming::MessageCreate;
use twilight_model::id::Id;
use twilight_model::util::Timestamp;
use vstd::prelude::*;
use vstd::utf8::encode_utf8;

verus! {

/// The view of a decoded message, or of the decoder's complaint.
pub open spec fn decoded_view(r: Result<Message, String>) -> Result<MessageView, Seq<char>> {
    match r {
        Ok(message) => Ok(message@),
        Err(error) => Err(error@),
    }
}

/// The view of a check that passed, or of the complaint.
pub open spec fn checked_view(r: Result<(), String>) -> Result<(), Seq<char>> {
    match r {
        Ok(()) => Ok(()),
        Err(error) => Err(error@),
    }
}

/// What decoding the JSON text `bytes` as a message-create event gives: the
/// message, or the text of the decoder's error.
pub uninterp spec fn message_create_json(bytes: Seq<u8>) -> Result<MessageView, Seq<char>>;

/// Whether the JSON text `bytes` decodes as a channel; if not, the text of
/// the decoder's error.
pub uninterp spec fn channel_json(bytes: Seq<u8>) -> Result<(), Seq<char>>;

/// Whether the platform's timestamp type can hold this number of seconds
/// since the Unix epoch, where that number lies outside the years that every
/// build of the platform crate holds.
pub uninterp spec fn timestamp_representable(unix_seconds: i64) -> bool;

/// Whether the platform's timestamp type can hold this number of seconds
/// since the Unix epoch. It holds every second from the epoch to the end of
/// the year 9999; what it holds beyond depends on how the calendar under
/// the platform crate was built.
pub open spec fn timestamp_holds(unix_seconds: i64) -> bool {
    0 <= unix_seconds <= 253_402_300_799 || timestamp_representable(unix_seconds)
}

/// The JSON body of the request that times a member out until `until`
/// seconds since the Unix epoch, as the platform crate writes it.
pub uninterp spec fn update_member_json(guild_id: u64, user_id: u64, until: i64) -> Seq<u8>;

/// The text with which the platform crate refuses a request whose fields
/// break its limits.
pub open spec fn invalid_fields_error() -> Seq<char> {
    "request fields have invalid values"@
}

/// The JSON body of every request that bans a member: it asks for no
/// messages to be deleted.
pub open spec fn create_ban_json() -> Seq<u8> {
    encode_utf8("{\"delete_message_seconds\":null}"@)
}

/// What building the request that bans a member gives: the body, or a
/// refusal where a reason for the audit log is given and is longer than 512
/// characters.
pub open spec fn create_ban_request(reason: Option<Seq<char>>) -> Result<Seq<u8>, Seq<char>> {
    match reason {
        Some(text) => if text.len() <= 512 {
            Ok(create_ban_json())
        } else {
            Err(invalid_fields_error())
        },
        None => Ok(create_ban_json()),
    }
}

/// The number of characters of a text that may be missing.
pub open spec fn text_chars(text: Option<Seq<char>>) -> nat {
    match text {
        Some(text) => text.len(),
        None => 0,
    }
}

/// The number of bytes of a text that may be missing, in UTF-8.
pub open spec fn text_bytes(text: Option<Seq<char>>) -> nat {
    match text {
        Some(text) => encode_utf8(text).len(),
        None => 0,
    }
}

/// Whether an embed keeps the limits that the platform crate checks: an RGB
/// colour, at most 4096 characters of description, 2048 of footer, 256 of
/// author name and 256 of title, and at most 6000 bytes of text in all.
pub open spec fn embed_within_limits(embed: EmbedView) -> bool {
    &&& embed.color matches Some(color) ==> color <= 0xff_ff_ff
    &&& text_chars(embed.description) <= 4096
    &&& embed.footer.len() <= 2048
    &&& embed.author_name.len() <= 256
    &&& text_chars(embed.title) <= 256
    &&& encode_utf8(embed.author_name).len() + text_bytes(embed.description) + encode_utf8(
        embed.footer,
    ).len() + text_bytes(embed.title) <= 6000
}

/// The JSON body of the request that posts one embed to a channel, as the
/// platform crate writes it.
pub uninterp spec fn create_message_json(channel_id: u64, embed: EmbedView) -> Seq<u8>;

/// What building the request that posts one embed to a channel gives: its
/// JSON body, or a refusal where the embed breaks a limit.
pub open spec fn create_message_request(channel_id: u64, embed: EmbedView) -> Result<
    Seq<u8>,
    Seq<char>,
> {
    if embed_within_limits(embed) {
        Ok(create_message_json(channel_id, embed))
    } else {
        Err(invalid_fields_error())
    }
}

/// Decodes a message-create event with `sonic_rs::from_slice` and moves out
/// the fields that moderation reads. The result depends on the bytes alone.
#[verifier::external_body]
pub(crate) fn decode_message_create(bytes: &[u8]) -> (r: Result<Message, String>)
    ensures
        decoded_view(r) == message_create_json(bytes@),
{
    let m = sonic_rs::from_slice::<MessageCreate>(bytes).map_err(|e| e.to_string())?.0;
    Ok(Message {
        id: m.id.get(),
        channel_id: m.channel_id.get(),
        guild_id: m.guild_id.map(Id::get),
        author_id: m.author.id.get(),
        author_name: m.author.name,
        author_avatar: m.author.avatar.map(|a| a.to_string()),
        member_roles: m.member.map(|p| p.roles.into_iter().map(Id::get).collect()),
        content: m.content,
        attachments: m.attachments.into_iter().map(|a| Attachment { url: a.url }).collect(),
    })
}

/// Decodes a channel with `sonic_rs::from_slice` and drops it: only whether
/// the bytes decode, and with which error if not, comes back.
#[verifier::external_body]
pub(crate) fn decode_channel(bytes: &[u8]) -> (r: Result<(), String>)
    ensures
        checked_view(r) == channel_json(bytes@),
{
    sonic_rs::from_slice::<Channel>(bytes).map(|_| ()).map_err(|e| e.to_string())
}

/// Asks `Timestamp::from_secs` whether it accepts `unix_seconds`. The range
/// it accepts is that of the calendar the platform crate is built on, which
/// in every build reaches from the epoch to the end of the year 9999.
#[verifier::external_body]
pub(crate) fn timestamp_is_representable(unix_seconds: i64) -> (ok: bool)
    ensures
        ok == (0 <= unix_seconds <= 253_402_300_799 || timestamp_representable(unix_seconds)),
{
    Timestamp::from_secs(unix_seconds).is_ok()
}

/// Builds, with `Client::update_guild_member`, the request that times a
/// member out until `until`, and hands back its JSON body. The request
/// builder compares `until` with the system clock and refuses a time-out of
/// more than 28 days with the text of the crate's validation error, so
/// whether the body comes back is not promised; the body itself depends on
/// the arguments alone.
#[verifier::external_body]
pub(crate) fn update_member_body(guild_id: u64, user_id: u64, until: i64) -> (r: Result<
    Vec<u8>,
    String,
>)
    requires
        guild_id != 0,
        user_id != 0,
        timestamp_holds(until),
    ensures
        r matches Ok(body) ==> body@ == update_member_json(guild_id, user_id, until),
        r matches Err(error) ==> error@ == invalid_fields_error(),
{
    let until = Timestamp::from_secs(until).map_err(|e| e.to_string())?;
    let request = Client::builder()
        .build()
        .update_guild_member(Id::new(guild_id), Id::new(user_id))
        .communication_disabled_until(Some(until))
        .try_into_request();
    Ok(request.map_err(|e| e.to_string())?.body().unwrap_or_default().to_vec())
}

/// Builds, with `Client::create_ban`, the request that bans a member without
/// a reason for the audit log, and hands back its JSON body. The body never
/// asks for messages to be deleted, and nothing in the request can be
/// refused.
#[verifier::external_body]
pub(crate) fn create_ban_body(guild_id: u64, user_id: u64) -> (r: Result<Vec<u8>, String>)
    requires
        guild_id != 0,
        user_id != 0,
    ensures
        encoded_view(r) == create_ban_request(None),
{
    let request = Client::builder()
        .build()
        .create_ban(Id::new(guild_id), Id::new(user_id))
        .try_into_request();
    Ok(request.map_err(|e| e.to_string())?.body().unwrap_or_default().to_vec())
}

/// Builds the same request with `AuditLogReason::reason` called on it. The
/// body is the same; the request is refused, with the text of the crate's
/// validation error, exactly where the reason is over 512 characters.
#[verifier::external_body]
pub(crate) fn create_ban_body_with_reason(guild_id: u64, user_id: u64, reason: &str) -> (r: Result<
    Vec<u8>,
    String,
>)
    requires
        guild_id != 0,
        user_id != 0,
    ensures
        encoded_view(r) == create_ban_request(Some(reason@)),
{
    let request = Client::builder()
        .build()
        .create_ban(Id::new(guild_id), Id::new(user_id))
        .reason(reason)
        .try_into_request();
    Ok(request.map_err(|e| e.to_string())?.body().unwrap_or_default().to_vec())
}

/// Builds, with `Client::create_message` and `CreateMessage::embeds`, the
/// request that posts `embed` to a channel, and hands back its JSON body,
/// which depends on the arguments alone. A time that `Timestamp::from_secs`
/// does not accept is left out of the embed. The request is refused, with
/// the text of the crate's validation error, exactly where the embed breaks
/// one of the limits that the crate checks.
#[verifier::external_body]
pub(crate) fn create_message_body(channel_id: u64, embed: Embed) -> (r: Result<Vec<u8>, String>)
    requires
        channel_id != 0,
    ensures
        r is Ok <==> embed_within_limits(embed@),
        r matches Ok(body) ==> body@ == create_message_json(channel_id, embed@),
        r matches Err(error) ==> error@ == invalid_fields_error(),
{
    let embed = PlatformEmbed {
        author: Some(EmbedAuthor { icon_url: embed.author_icon_url, name: embed.author_name, proxy_icon_url: None, url: None }),
        color: embed.color, description: embed.description, fields: vec![],
        footer: Some(EmbedFooter { icon_url: None, proxy_icon_url: None, text: embed.footer }),
        image: None, kind: embed.kind, provider: None, thumbnail: None,
        timestamp: embed.timestamp.and_then(|t| Timestamp::from_secs(t).ok()),
        title: embed.title, url: None, video: None,
    };
    let request = Client::builder().build().create_message(Id::new(channel_id)).embeds(&[embed]).try_into_request();
    Ok(request.map_err(|e| e.to_string())?.body().unwrap_or_default().to_vec())
}

} // verus!
