//! The typed wire objects that the normalization and listing algorithms
//! consume, modelled as plain values.
//!
//! Each type mirrors one shape of the protocol's closed variant set: peers,
//! users, chats, messages, the update envelopes a round-trip can deliver, and
//! the request/response shapes of the dialog listing call.

use vstd::prelude::*;

verus! {

/// A reference to the party a message or dialog belongs to, by numeric id.
#[derive(Clone, Copy, Debug, PartialEq, Eq, Structural)]
pub enum Peer {
    User { user_id: i32 },
    Chat { chat_id: i32 },
    Channel { channel_id: i32 },
}

/// The numeric id a peer reference carries, used as the single lookup key
/// across the three peer kinds.
pub open spec fn peer_id_spec(peer: Peer) -> i32 {
    match peer {
        Peer::User { user_id } => user_id,
        Peer::Chat { chat_id } => chat_id,
        Peer::Channel { channel_id } => channel_id,
    }
}

/// Extracts the numeric id out of a peer reference.
pub fn peer_id(peer: &Peer) -> (r: i32)
    ensures
        r == peer_id_spec(*peer),
{
    match peer {
        Peer::User { user_id } => *user_id,
        Peer::Chat { chat_id } => *chat_id,
        Peer::Channel { channel_id } => *channel_id,
    }
}

/// A peer reference in the form subsequent listing requests take.
#[derive(Clone, Copy, Debug, PartialEq, Eq, Structural)]
pub enum InputPeer {
    Empty,
    User { user_id: i32, access_hash: i64 },
    Chat { chat_id: i32 },
    Channel { channel_id: i32, access_hash: i64 },
}

/// A full user record.
#[derive(Clone, Debug)]
pub struct User {
    pub id: i32,
    pub access_hash: Option<i64>,
    pub first_name: Option<String>,
    pub username: Option<String>,
    pub bot: bool,
}

/// A basic group record.
#[derive(Clone, Debug)]
pub struct Chat {
    pub id: i32,
    pub title: String,
    pub participants_count: i32,
}

/// A channel or supergroup record.
#[derive(Clone, Debug)]
pub struct Channel {
    pub id: i32,
    pub access_hash: Option<i64>,
    pub title: String,
    pub megagroup: bool,
}

/// A user as listed in a response: either a full record or the empty
/// placeholder that carries only an id.
#[derive(Clone, Debug)]
pub enum WireUser {
    User(User),
    Empty { id: i32 },
}

/// A chat or channel as listed in a response, including the placeholder and
/// forbidden shapes that resolve to no usable entity.
#[derive(Clone, Debug)]
pub enum WireChat {
    Empty { id: i32 },
    Chat(Chat),
    Forbidden { id: i32 },
    Channel(Channel),
    ChannelForbidden { id: i32 },
}

/// Header of a forwarded message, carried through unchanged.
#[derive(Clone, Copy, Debug, PartialEq, Eq, Structural)]
pub struct FwdHeader {
    pub from_id: Option<i32>,
    pub date: i32,
}

/// Header pointing at the message another message replies to.
#[derive(Clone, Copy, Debug, PartialEq, Eq, Structural)]
pub struct ReplyHeader {
    pub reply_to_msg_id: i32,
}

/// One formatting entity of a message's text.
#[derive(Clone, Copy, Debug, PartialEq, Eq, Structural)]
pub struct TextEntity {
    pub offset: i32,
    pub length: i32,
}

/// An attached media record.
#[derive(Clone, Copy, Debug, PartialEq, Eq, Structural)]
pub struct MediaInfo {
    pub kind: i32,
}

/// An inline keyboard attached to a message.
#[derive(Clone, Copy, Debug, PartialEq, Eq, Structural)]
pub struct ReplyMarkup {
    pub row_count: i32,
}

/// Thread / comment counters of a message.
#[derive(Clone, Copy, Debug, PartialEq, Eq, Structural)]
pub struct Replies {
    pub replies: i32,
}

/// One platform-specific restriction notice.
#[derive(Clone, Debug)]
pub struct RestrictionReason {
    pub platform: String,
    pub reason: String,
}

/// A fully-formed message record.
#[derive(Clone, Debug)]
pub struct MsgData {
    pub out: bool,
    pub mentioned: bool,
    pub media_unread: bool,
    pub silent: bool,
    pub post: bool,
    pub from_scheduled: bool,
    pub legacy: bool,
    pub edit_hide: bool,
    pub id: i32,
    pub from_id: Option<Peer>,
    pub peer_id: Peer,
    pub fwd_from: Option<FwdHeader>,
    pub via_bot_id: Option<i32>,
    pub reply_to: Option<ReplyHeader>,
    pub date: i32,
    pub message: String,
    pub media: Option<MediaInfo>,
    pub reply_markup: Option<ReplyMarkup>,
    pub entities: Option<Vec<TextEntity>>,
    pub views: Option<i32>,
    pub forwards: Option<i32>,
    pub replies: Option<Replies>,
    pub edit_date: Option<i32>,
    pub post_author: Option<String>,
    pub grouped_id: Option<i64>,
    pub restriction_reason: Option<Vec<RestrictionReason>>,
}

/// What a service message announces.
#[derive(Clone, Debug)]
pub enum ServiceAction {
    ChatCreate { title: String },
    ChatAddUser { users: Vec<i32> },
    Other,
}

/// A service message record (a group title change and the like).
#[derive(Clone, Debug)]
pub struct SvcData {
    pub out: bool,
    pub mentioned: bool,
    pub media_unread: bool,
    pub silent: bool,
    pub post: bool,
    pub legacy: bool,
    pub id: i32,
    pub from_id: Option<Peer>,
    pub peer_id: Peer,
    pub reply_to: Option<ReplyHeader>,
    pub date: i32,
    pub action: ServiceAction,
}

/// The empty message placeholder: only an id, no addressable peer.
#[derive(Clone, Copy, Debug, PartialEq, Eq, Structural)]
pub struct EmptyMsg {
    pub id: i32,
}

/// A message as delivered by the server.
#[derive(Clone, Debug)]
pub enum Message {
    Message(MsgData),
    Service(SvcData),
    Empty(EmptyMsg),
}

/// One canonical event of the closed event-variant set.
#[derive(Clone, Debug)]
pub enum Update {
    NewMessage { message: Message, pts: i32, pts_count: i32 },
    EditMessage { message: Message, pts: i32, pts_count: i32 },
    DeleteMessages { messages: Vec<i32>, pts: i32, pts_count: i32 },
    UserStatus { user_id: i32, online: bool },
}

/// The compact single-message envelope addressed to a single user.
#[derive(Clone, Debug)]
pub struct ShortMessage {
    pub out: bool,
    pub mentioned: bool,
    pub media_unread: bool,
    pub silent: bool,
    pub id: i32,
    pub user_id: i32,
    pub message: String,
    pub pts: i32,
    pub pts_count: i32,
    pub date: i32,
    pub fwd_from: Option<FwdHeader>,
    pub via_bot_id: Option<i32>,
    pub reply_to: Option<ReplyHeader>,
    pub entities: Option<Vec<TextEntity>>,
}

/// The compact single-message envelope addressed to a basic group.
#[derive(Clone, Debug)]
pub struct ShortChatMessage {
    pub out: bool,
    pub mentioned: bool,
    pub media_unread: bool,
    pub silent: bool,
    pub id: i32,
    pub from_id: i32,
    pub chat_id: i32,
    pub message: String,
    pub pts: i32,
    pub pts_count: i32,
    pub date: i32,
    pub fwd_from: Option<FwdHeader>,
    pub via_bot_id: Option<i32>,
    pub reply_to: Option<ReplyHeader>,
    pub entities: Option<Vec<TextEntity>>,
}

/// The single-event envelope.
#[derive(Clone, Debug)]
pub struct ShortUpdate {
    pub update: Update,
    pub date: i32,
}

/// The multi-event envelope that additionally carries a sequence range.
#[derive(Clone, Debug)]
pub struct CombinedUpdates {
    pub updates: Vec<Update>,
    pub users: Vec<WireUser>,
    pub chats: Vec<WireChat>,
    pub date: i32,
    pub seq_start: i32,
    pub seq: i32,
}

/// The plain multi-event envelope.
#[derive(Clone, Debug)]
pub struct ManyUpdates {
    pub updates: Vec<Update>,
    pub users: Vec<WireUser>,
    pub chats: Vec<WireChat>,
    pub date: i32,
    pub seq: i32,
}

/// The echo of a just-sent outgoing message; a response-only shape.
#[derive(Clone, Debug)]
pub struct ShortSentMessage {
    pub out: bool,
    pub id: i32,
    pub pts: i32,
    pub pts_count: i32,
    pub date: i32,
}

/// The top-level wrapper one round-trip delivers.
#[derive(Clone, Debug)]
pub enum Envelope {
    /// Resync-required signal; response-only.
    TooLong,
    ShortMessage(ShortMessage),
    ShortChatMessage(ShortChatMessage),
    Short(ShortUpdate),
    Combined(CombinedUpdates),
    Updates(ManyUpdates),
    ShortSentMessage(ShortSentMessage),
}

/// A dialog descriptor as listed by the server.
#[derive(Clone, Copy, Debug, PartialEq, Eq, Structural)]
pub struct DialogData {
    pub pinned: bool,
    pub peer: Peer,
    pub top_message: i32,
    pub unread_count: i32,
}

/// A folder descriptor; folders are not represented as dialogs.
#[derive(Clone, Copy, Debug, PartialEq, Eq, Structural)]
pub struct FolderData {
    pub id: i32,
}

/// One entry of the dialog list a page returns.
#[derive(Clone, Copy, Debug, PartialEq, Eq, Structural)]
pub enum DialogDesc {
    Dialog(DialogData),
    Folder(FolderData),
}

/// The mutable cursor request of the dialog listing.
#[derive(Clone, Copy, Debug, PartialEq, Eq, Structural)]
pub struct GetDialogs {
    pub exclude_pinned: bool,
    pub folder_id: Option<i32>,
    pub offset_date: i32,
    pub offset_id: i32,
    pub offset_peer: InputPeer,
    pub limit: i32,
    pub hash: i32,
}

/// The response shapes of the dialog listing call.
#[derive(Clone, Debug)]
pub enum DialogsResult {
    /// The full list; no more pages.
    Dialogs {
        dialogs: Vec<DialogDesc>,
        messages: Vec<Message>,
        chats: Vec<WireChat>,
        users: Vec<WireUser>,
    },
    /// A partial slice out of `count` dialogs in total.
    Slice {
        count: i32,
        dialogs: Vec<DialogDesc>,
        messages: Vec<Message>,
        chats: Vec<WireChat>,
        users: Vec<WireUser>,
    },
    /// Hash matched; nothing changed.
    NotModified { count: i32 },
}

} // verus!
