//! Domain entities that own identifiers, and their conversion capabilities.
//!
//! Only the identifier-bearing shape of each entity matters to this layer:
//! an entity here carries exactly the fields that the capability traits
//! read. A richer entity implements a capability by delegating to the inner
//! field that actually carries the information — a forwarded-message origin
//! branches on whether it came from a user or from a channel and delegates
//! to whichever is present.

use vstd::prelude::*;

verus! {

use crate::refs::ChannelId;
use crate::refs::ChatId;
use crate::refs::ChatRef;
use crate::refs::ChatRefV;
use crate::refs::FileRef;
use crate::refs::GroupId;
use crate::refs::MessageId;
use crate::refs::SupergroupId;
use crate::refs::ToChatRef;
use crate::refs::ToFileRef;
use crate::refs::ToMessageId;
use crate::refs::ToSourceChat;
use crate::refs::ToUserId;
use crate::refs::UserId;

/// A user account; inherently also a private chat.
#[derive(Debug, Clone, PartialEq, Eq)]
pub struct User {
    pub id: UserId,
}

/// A basic group chat.
#[derive(Debug, Clone, PartialEq, Eq)]
pub struct Group {
    pub id: GroupId,
}

/// A supergroup chat.
#[derive(Debug, Clone, PartialEq, Eq)]
pub struct Supergroup {
    pub id: SupergroupId,
}

/// A channel.
#[derive(Debug, Clone, PartialEq, Eq)]
pub struct Channel {
    pub id: ChannelId,
}

/// Any chat an update can originate from.
#[derive(Debug, Clone, PartialEq, Eq)]
pub enum Chat {
    Private(User),
    Group(Group),
    Supergroup(Supergroup),
    Channel(Channel),
}

impl Chat {
    /// The generic chat id of whichever kind of chat this is.
    pub open spec fn id_spec(&self) -> ChatId {
        match self {
            Chat::Private(u) => ChatId(u.id.0),
            Chat::Group(g) => ChatId(g.id.0),
            Chat::Supergroup(s) => ChatId(s.id.0),
            Chat::Channel(c) => ChatId(c.id.0),
        }
    }

    /// Widens the kind-specific id of this chat into the generic `ChatId`.
    pub fn id(&self) -> (r: ChatId)
        ensures
            r == self.id_spec(),
    {
        match self {
            Chat::Private(u) => ChatId::from(u.id),
            Chat::Group(g) => ChatId::from(g.id),
            Chat::Supergroup(s) => ChatId::from(s.id),
            Chat::Channel(c) => ChatId::from(c.id),
        }
    }
}

impl ToChatRef for Chat {
    open spec fn chat_ref_spec(&self) -> ChatRefV {
        ChatRefV::Id(self.id_spec().0 as int)
    }

    fn to_chat_ref(&self) -> (r: ChatRef) {
        self.id().to_chat_ref()
    }
}

impl ToChatRef for User {
    open spec fn chat_ref_spec(&self) -> ChatRefV {
        ChatRefV::Id(self.id.0 as int)
    }

    fn to_chat_ref(&self) -> (r: ChatRef) {
        self.id.to_chat_ref()
    }
}

impl ToChatRef for Group {
    open spec fn chat_ref_spec(&self) -> ChatRefV {
        ChatRefV::Id(self.id.0 as int)
    }

    fn to_chat_ref(&self) -> (r: ChatRef) {
        self.id.to_chat_ref()
    }
}

impl ToChatRef for Supergroup {
    open spec fn chat_ref_spec(&self) -> ChatRefV {
        ChatRefV::Id(self.id.0 as int)
    }

    fn to_chat_ref(&self) -> (r: ChatRef) {
        self.id.to_chat_ref()
    }
}

impl ToChatRef for Channel {
    open spec fn chat_ref_spec(&self) -> ChatRefV {
        ChatRefV::Id(self.id.0 as int)
    }

    fn to_chat_ref(&self) -> (r: ChatRef) {
        self.id.to_chat_ref()
    }
}

impl ToUserId for User {
    open spec fn user_id_spec(&self) -> UserId {
        self.id
    }

    fn to_user_id(&self) -> (r: UserId) {
        self.id
    }
}

/// A membership record of one user in one chat.
#[derive(Debug, Clone, PartialEq, Eq)]
pub struct ChatMember {
    pub user: User,
}

impl ToUserId for ChatMember {
    open spec fn user_id_spec(&self) -> UserId {
        self.user.id
    }

    fn to_user_id(&self) -> (r: UserId) {
        self.user.id
    }
}

impl ToChatRef for ChatMember {
    open spec fn chat_ref_spec(&self) -> ChatRefV {
        ChatRefV::Id(self.user.id.0 as int)
    }

    fn to_chat_ref(&self) -> (r: ChatRef) {
        self.user.to_chat_ref()
    }
}

/// The origin of a forwarded message: from a user or from a channel,
/// exactly one of the two.
#[derive(Debug, Clone, PartialEq, Eq)]
pub enum ForwardFrom {
    User { user: User },
    Channel { channel: Channel },
}

impl ToChatRef for ForwardFrom {
    open spec fn chat_ref_spec(&self) -> ChatRefV {
        match self {
            ForwardFrom::User { user } => user.chat_ref_spec(),
            ForwardFrom::Channel { channel } => channel.chat_ref_spec(),
        }
    }

    fn to_chat_ref(&self) -> (r: ChatRef) {
        match self {
            ForwardFrom::User { user } => user.to_chat_ref(),
            ForwardFrom::Channel { channel } => channel.to_chat_ref(),
        }
    }
}

/// The forwarding record a message may carry.
#[derive(Debug, Clone, PartialEq, Eq)]
pub struct Forward {
    pub date: crate::Integer,
    pub from: ForwardFrom,
}

impl ToChatRef for Forward {
    open spec fn chat_ref_spec(&self) -> ChatRefV {
        self.from.chat_ref_spec()
    }

    fn to_chat_ref(&self) -> (r: ChatRef) {
        self.from.to_chat_ref()
    }
}

/// A message received in a chat, possibly forwarded from elsewhere.
#[derive(Debug, Clone, PartialEq, Eq)]
pub struct Message {
    pub id: MessageId,
    pub chat: Chat,
    pub forward: Option<Forward>,
}

impl ToMessageId for Message {
    open spec fn message_id_spec(&self) -> MessageId {
        self.id
    }

    fn to_message_id(&self) -> (r: MessageId) {
        self.id
    }
}

impl ToSourceChat for Message {
    open spec fn source_chat_spec(&self) -> ChatId {
        self.chat.id_spec()
    }

    fn to_source_chat(&self) -> (r: ChatId) {
        self.chat.id()
    }
}

/// The file entity the API hands back for an uploaded or fetched file.
#[derive(Debug, Clone, PartialEq, Eq)]
pub struct File {
    pub file_id: String,
}

impl ToFileRef for File {
    open spec fn file_ref_spec(&self) -> Seq<char> {
        self.file_id@
    }

    fn to_file_ref(&self) -> (r: FileRef) {
        FileRef { inner: self.file_id.clone() }
    }
}

/// One size of a photo.
#[derive(Debug, Clone, PartialEq, Eq)]
pub struct PhotoSize {
    pub file_id: String,
}

impl ToFileRef for PhotoSize {
    open spec fn file_ref_spec(&self) -> Seq<char> {
        self.file_id@
    }

    fn to_file_ref(&self) -> (r: FileRef) {
        FileRef { inner: self.file_id.clone() }
    }
}

/// Unique identifier of an inline query, an opaque string.
#[derive(Debug, Clone, PartialEq, Eq)]
pub struct InlineQueryId(pub String);

impl InlineQueryId {
    /// Total constructor from the opaque wire string.
    pub fn new(s: &str) -> (r: InlineQueryId)
        ensures
            r.0@ == s@,
    {
        InlineQueryId(s.to_owned())
    }
}

impl From<String> for InlineQueryId {
    fn from(s: String) -> (r: Self) {
        InlineQueryId(s)
    }
}

impl vstd::std_specs::convert::FromSpecImpl<String> for InlineQueryId {
    open spec fn obeys_from_spec() -> bool {
        true
    }

    open spec fn from_spec(s: String) -> Self {
        InlineQueryId(s)
    }
}

/// Get an `InlineQueryId` from the type reference.
pub trait ToInlineQueryId: Sized {
    /// The characters of the query id this value stands for.
    spec fn query_id_spec(&self) -> Seq<char>;

    fn to_query_id(&self) -> (r: InlineQueryId)
        ensures
            r.0@ == self.query_id_spec(),
    ;
}

impl ToInlineQueryId for InlineQueryId {
    open spec fn query_id_spec(&self) -> Seq<char> {
        self.0@
    }

    fn to_query_id(&self) -> (r: InlineQueryId) {
        InlineQueryId(self.0.clone())
    }
}

impl ToInlineQueryId for String {
    open spec fn query_id_spec(&self) -> Seq<char> {
        self@
    }

    fn to_query_id(&self) -> (r: InlineQueryId) {
        InlineQueryId(self.clone())
    }
}

/// One result offered in answer to an inline query. The catalog of concrete
/// result kinds is out of this layer's scope; a result here carries the two
/// fields every kind shares: the kind tag (wire key `type`) and its id.
#[derive(Debug, Clone, PartialEq, Eq)]
pub struct InlineQueryResult {
    pub kind: String,
    pub id: String,
}

impl InlineQueryResult {
    /// Total constructor.
    pub fn new(kind: &str, id: &str) -> (r: InlineQueryResult)
        ensures
            r.kind@ == kind@,
            r.id@ == id@,
    {
        InlineQueryResult { kind: kind.to_owned(), id: id.to_owned() }
    }
}

/// Law: the source chat of a message is the chat the message was received
/// in, independent of any forwarding record the message also carries.
pub proof fn lemma_source_chat_ignores_forward(m1: Message, m2: Message)
    requires
        m1.chat == m2.chat,
    ensures
        m1.source_chat_spec() == m1.chat.id_spec(),
        m1.source_chat_spec() == m2.source_chat_spec(),
{
}

/// Law: the chat reference of a forward-origin that came from a channel is
/// the channel's own reference, whatever else the origin could have named.
pub proof fn lemma_forward_from_channel_delegates(f: ForwardFrom, c: Channel)
    requires
        f == (ForwardFrom::Channel { channel: c }),
    ensures
        f.chat_ref_spec() == c.chat_ref_spec(),
{
}

/// Law: the chat reference of a forward-origin that came from a user is the
/// user's own reference.
pub proof fn lemma_forward_from_user_delegates(f: ForwardFrom, u: User)
    requires
        f == (ForwardFrom::User { user: u }),
    ensures
        f.chat_ref_spec() == u.chat_ref_spec(),
{
}

} // verus!
