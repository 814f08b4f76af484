//! Identifier newtypes, wire references, and the conversion capability
//! traits.
//!
//! Each identifier kind wraps a primitive and is distinct from every other
//! kind at the type level; the only sanctioned crossings are the widening
//! conversions stated here (a specific chat-family id into the generic
//! [`ChatId`], and any chat-family id into a [`ChatRef`]). The capability
//! traits are total: a type either can always produce the target identifier
//! or does not implement the trait.

use vstd::prelude::*;

verus! {

use crate::Error;
use crate::Integer;
use crate::codec::int_bytes;
use crate::codec::is_i64_json_integer;
use crate::codec::json_integer_value;
use crate::codec::json_str;
use crate::codec::parse_json_integer;
use crate::codec::push_int;
use crate::codec::push_json_string;
use vstd::std_specs::convert::FromSpec;

/// Unique user identifier.
#[derive(Debug, Clone, Copy, PartialEq, Eq, Structural, PartialOrd, Ord, Hash)]
pub struct UserId(pub Integer);

/// Unique group identifier.
#[derive(Debug, Clone, Copy, PartialEq, Eq, Structural, PartialOrd, Ord, Hash)]
pub struct GroupId(pub Integer);

/// Unique supergroup identifier.
#[derive(Debug, Clone, Copy, PartialEq, Eq, Structural, PartialOrd, Ord, Hash)]
pub struct SupergroupId(pub Integer);

/// Unique channel identifier.
#[derive(Debug, Clone, Copy, PartialEq, Eq, Structural, PartialOrd, Ord, Hash)]
pub struct ChannelId(pub Integer);

/// Unique chat identifier: the generic form that every chat-family id
/// widens into.
#[derive(Debug, Clone, Copy, PartialEq, Eq, Structural, PartialOrd, Ord, Hash)]
pub struct ChatId(pub Integer);

/// Unique message identifier inside a chat.
#[derive(Debug, Clone, Copy, PartialEq, Eq, Structural, PartialOrd, Ord, Hash)]
pub struct MessageId(pub Integer);

/// Unique identifier for the target chat, or username of the target channel
/// (in the format `@channelusername`).
#[derive(Debug, Clone, PartialEq, Eq, PartialOrd, Ord, Hash)]
pub enum ChatRef {
    Id(ChatId),
    ChannelUsername(String),
}

/// The mathematical value of a [`ChatRef`]: either a numeric id or the
/// characters of a username.
pub enum ChatRefV {
    Id(int),
    Username(Seq<char>),
}

impl View for ChatRef {
    type V = ChatRefV;

    open spec fn view(&self) -> ChatRefV {
        match self {
            ChatRef::Id(id) => ChatRefV::Id(id.0 as int),
            ChatRef::ChannelUsername(u) => ChatRefV::Username(u@),
        }
    }
}

/// The wire bytes of a chat reference: the bare signed integer for the id
/// form, the bare JSON string for the username form — never an object.
pub open spec fn chat_ref_bytes(r: ChatRefV) -> Seq<u8> {
    match r {
        ChatRefV::Id(v) => int_bytes(v),
        ChatRefV::Username(u) => json_str(u),
    }
}

impl ChatRef {
    /// Widens a generic chat id into a reference; always the id form.
    pub fn from_chat_id(chat_id: ChatId) -> (r: ChatRef)
        ensures
            r == ChatRef::Id(chat_id),
    {
        ChatRef::Id(chat_id)
    }

    /// Encodes the reference in its wire shape, discriminated by the JSON
    /// value's natural type rather than by any wrapping object.
    pub fn encode_json(&self) -> (r: Vec<u8>)
        ensures
            r@ == chat_ref_bytes(self@),
    {
        let mut out: Vec<u8> = Vec::new();
        match self {
            ChatRef::Id(id) => push_int(&mut out, id.0),
            ChatRef::ChannelUsername(u) => push_json_string(&mut out, u.as_str()),
        }
        out
    }
}

/// Get a `ChatRef` from the type reference.
pub trait ToChatRef: Sized {
    /// The reference this value stands for.
    spec fn chat_ref_spec(&self) -> ChatRefV;

    fn to_chat_ref(&self) -> (r: ChatRef)
        ensures
            r@ == self.chat_ref_spec(),
    ;
}

impl ToChatRef for ChatRef {
    open spec fn chat_ref_spec(&self) -> ChatRefV {
        self@
    }

    fn to_chat_ref(&self) -> (r: ChatRef) {
        match self {
            ChatRef::Id(id) => ChatRef::Id(*id),
            ChatRef::ChannelUsername(u) => ChatRef::ChannelUsername(u.clone()),
        }
    }
}

/// Transparent forwarding: a borrowed convertible value is itself
/// convertible, by delegating to what it points at.
impl<T: ToChatRef> ToChatRef for &T {
    open spec fn chat_ref_spec(&self) -> ChatRefV {
        (**self).chat_ref_spec()
    }

    fn to_chat_ref(&self) -> (r: ChatRef) {
        (**self).to_chat_ref()
    }
}

/// Get a `UserId` from the type reference.
pub trait ToUserId: Sized {
    /// The user this value stands for.
    spec fn user_id_spec(&self) -> UserId;

    fn to_user_id(&self) -> (r: UserId)
        ensures
            r == self.user_id_spec(),
    ;
}

impl ToUserId for UserId {
    open spec fn user_id_spec(&self) -> UserId {
        *self
    }

    fn to_user_id(&self) -> (r: UserId) {
        *self
    }
}

/// Transparent forwarding through a borrow.
impl<T: ToUserId> ToUserId for &T {
    open spec fn user_id_spec(&self) -> UserId {
        (**self).user_id_spec()
    }

    fn to_user_id(&self) -> (r: UserId) {
        (**self).to_user_id()
    }
}

/// Get a `MessageId` from the type reference.
pub trait ToMessageId: Sized {
    /// The message this value stands for.
    spec fn message_id_spec(&self) -> MessageId;

    fn to_message_id(&self) -> (r: MessageId)
        ensures
            r == self.message_id_spec(),
    ;
}

impl ToMessageId for MessageId {
    open spec fn message_id_spec(&self) -> MessageId {
        *self
    }

    fn to_message_id(&self) -> (r: MessageId) {
        *self
    }
}

/// Transparent forwarding through a borrow.
impl<T: ToMessageId> ToMessageId for &T {
    open spec fn message_id_spec(&self) -> MessageId {
        (**self).message_id_spec()
    }

    fn to_message_id(&self) -> (r: MessageId) {
        (**self).to_message_id()
    }
}

/// Get the source `ChatId` from the type reference: the chat a value was
/// observed in, as opposed to the chat it names.
pub trait ToSourceChat: Sized {
    /// The chat this value was received in.
    spec fn source_chat_spec(&self) -> ChatId;

    fn to_source_chat(&self) -> (r: ChatId)
        ensures
            r == self.source_chat_spec(),
    ;
}

/// Transparent forwarding through a borrow.
impl<T: ToSourceChat> ToSourceChat for &T {
    open spec fn source_chat_spec(&self) -> ChatId {
        (**self).source_chat_spec()
    }

    fn to_source_chat(&self) -> (r: ChatId) {
        (**self).to_source_chat()
    }
}

/// Unique file identifier reference: an opaque string, the only wire form a
/// file has.
#[derive(Debug, Clone, PartialEq, Eq, PartialOrd, Ord, Hash)]
pub struct FileRef {
    pub inner: String,
}

impl View for FileRef {
    type V = Seq<char>;

    open spec fn view(&self) -> Seq<char> {
        self.inner@
    }
}

impl FileRef {
    /// Total constructor from the opaque wire string.
    pub fn new(s: &str) -> (r: FileRef)
        ensures
            r@ == s@,
    {
        FileRef { inner: s.to_owned() }
    }

    /// Encodes the reference as the bare JSON string.
    pub fn encode_json(&self) -> (r: Vec<u8>)
        ensures
            r@ == json_str(self@),
    {
        let mut out: Vec<u8> = Vec::new();
        push_json_string(&mut out, self.inner.as_str());
        out
    }
}

impl From<String> for FileRef {
    fn from(s: String) -> (r: Self) {
        FileRef { inner: s }
    }
}

impl vstd::std_specs::convert::FromSpecImpl<String> for FileRef {
    open spec fn obeys_from_spec() -> bool {
        true
    }

    open spec fn from_spec(s: String) -> Self {
        FileRef { inner: s }
    }
}

/// Get a `FileRef` from the type reference.
pub trait ToFileRef: Sized {
    /// The file this value stands for.
    spec fn file_ref_spec(&self) -> Seq<char>;

    fn to_file_ref(&self) -> (r: FileRef)
        ensures
            r@ == self.file_ref_spec(),
    ;
}

impl ToFileRef for FileRef {
    open spec fn file_ref_spec(&self) -> Seq<char> {
        self@
    }

    fn to_file_ref(&self) -> (r: FileRef) {
        FileRef { inner: self.inner.clone() }
    }
}

/// Transparent forwarding through a borrow.
impl<T: ToFileRef> ToFileRef for &T {
    open spec fn file_ref_spec(&self) -> Seq<char> {
        (**self).file_ref_spec()
    }

    fn to_file_ref(&self) -> (r: FileRef) {
        (**self).to_file_ref()
    }
}

impl UserId {
    /// Total constructor: any 64-bit value is a structurally valid id.
    pub fn new(inner: Integer) -> (r: Self)
        ensures
            r == UserId(inner),
    {
        UserId(inner)
    }

    /// Encodes the id in its wire shape: a bare JSON number.
    pub fn encode_json(&self) -> (r: Vec<u8>)
        ensures
            r@ == int_bytes(self.0 as int),
    {
        let mut out: Vec<u8> = Vec::new();
        push_int(&mut out, self.0);
        out
    }

    /// Decodes the strict wire form: exactly a JSON integer in 64-bit range.
    /// A JSON string is rejected with the malformed-identifier error, never
    /// parsed as a number.
    pub fn decode_json(bytes: &[u8]) -> (r: Result<Self, Error>)
        ensures
            match r {
                Ok(id) => is_i64_json_integer(bytes@) && id.0 as int == json_integer_value(
                    bytes@,
                ),
                Err(e) => e == Error::MalformedIdentifier && !is_i64_json_integer(bytes@),
            },
    {
        match parse_json_integer(bytes) {
            Ok(v) => Ok(UserId(v)),
            Err(e) => Err(e),
        }
    }
}

impl From<Integer> for UserId {
    fn from(inner: Integer) -> (r: Self) {
        UserId::new(inner)
    }
}

impl vstd::std_specs::convert::FromSpecImpl<Integer> for UserId {
    open spec fn obeys_from_spec() -> bool {
        true
    }

    open spec fn from_spec(inner: Integer) -> Self {
        UserId(inner)
    }
}

impl From<UserId> for Integer {
    fn from(from: UserId) -> (r: Self) {
        from.0
    }
}

impl vstd::std_specs::convert::FromSpecImpl<UserId> for Integer {
    open spec fn obeys_from_spec() -> bool {
        true
    }

    open spec fn from_spec(from: UserId) -> Self {
        from.0
    }
}

impl GroupId {
    /// Total constructor: any 64-bit value is a structurally valid id.
    pub fn new(inner: Integer) -> (r: Self)
        ensures
            r == GroupId(inner),
    {
        GroupId(inner)
    }

    /// Encodes the id in its wire shape: a bare JSON number.
    pub fn encode_json(&self) -> (r: Vec<u8>)
        ensures
            r@ == int_bytes(self.0 as int),
    {
        let mut out: Vec<u8> = Vec::new();
        push_int(&mut out, self.0);
        out
    }

    /// Decodes the strict wire form: exactly a JSON integer in 64-bit range.
    /// A JSON string is rejected with the malformed-identifier error, never
    /// parsed as a number.
    pub fn decode_json(bytes: &[u8]) -> (r: Result<Self, Error>)
        ensures
            match r {
                Ok(id) => is_i64_json_integer(bytes@) && id.0 as int == json_integer_value(
                    bytes@,
                ),
                Err(e) => e == Error::MalformedIdentifier && !is_i64_json_integer(bytes@),
            },
    {
        match parse_json_integer(bytes) {
            Ok(v) => Ok(GroupId(v)),
            Err(e) => Err(e),
        }
    }
}

impl From<Integer> for GroupId {
    fn from(inner: Integer) -> (r: Self) {
        GroupId::new(inner)
    }
}

impl vstd::std_specs::convert::FromSpecImpl<Integer> for GroupId {
    open spec fn obeys_from_spec() -> bool {
        true
    }

    open spec fn from_spec(inner: Integer) -> Self {
        GroupId(inner)
    }
}

impl From<GroupId> for Integer {
    fn from(from: GroupId) -> (r: Self) {
        from.0
    }
}

impl vstd::std_specs::convert::FromSpecImpl<GroupId> for Integer {
    open spec fn obeys_from_spec() -> bool {
        true
    }

    open spec fn from_spec(from: GroupId) -> Self {
        from.0
    }
}

impl SupergroupId {
    /// Total constructor: any 64-bit value is a structurally valid id.
    pub fn new(inner: Integer) -> (r: Self)
        ensures
            r == SupergroupId(inner),
    {
        SupergroupId(inner)
    }

    /// Encodes the id in its wire shape: a bare JSON number.
    pub fn encode_json(&self) -> (r: Vec<u8>)
        ensures
            r@ == int_bytes(self.0 as int),
    {
        let mut out: Vec<u8> = Vec::new();
        push_int(&mut out, self.0);
        out
    }

    /// Decodes the strict wire form: exactly a JSON integer in 64-bit range.
    /// A JSON string is rejected with the malformed-identifier error, never
    /// parsed as a number.
    pub fn decode_json(bytes: &[u8]) -> (r: Result<Self, Error>)
        ensures
            match r {
                Ok(id) => is_i64_json_integer(bytes@) && id.0 as int == json_integer_value(
                    bytes@,
                ),
                Err(e) => e == Error::MalformedIdentifier && !is_i64_json_integer(bytes@),
            },
    {
        match parse_json_integer(bytes) {
            Ok(v) => Ok(SupergroupId(v)),
            Err(e) => Err(e),
        }
    }
}

impl From<Integer> for SupergroupId {
    fn from(inner: Integer) -> (r: Self) {
        SupergroupId::new(inner)
    }
}

impl vstd::std_specs::convert::FromSpecImpl<Integer> for SupergroupId {
    open spec fn obeys_from_spec() -> bool {
        true
    }

    open spec fn from_spec(inner: Integer) -> Self {
        SupergroupId(inner)
    }
}

impl From<SupergroupId> for Integer {
    fn from(from: SupergroupId) -> (r: Self) {
        from.0
    }
}

impl vstd::std_specs::convert::FromSpecImpl<SupergroupId> for Integer {
    open spec fn obeys_from_spec() -> bool {
        true
    }

    open spec fn from_spec(from: SupergroupId) -> Self {
        from.0
    }
}

impl ChannelId {
    /// Total constructor: any 64-bit value is a structurally valid id.
    pub fn new(inner: Integer) -> (r: Self)
        ensures
            r == ChannelId(inner),
    {
        ChannelId(inner)
    }

    /// Encodes the id in its wire shape: a bare JSON number.
    pub fn encode_json(&self) -> (r: Vec<u8>)
        ensures
            r@ == int_bytes(self.0 as int),
    {
        let mut out: Vec<u8> = Vec::new();
        push_int(&mut out, self.0);
        out
    }

    /// Decodes the strict wire form: exactly a JSON integer in 64-bit range.
    /// A JSON string is rejected with the malformed-identifier error, never
    /// parsed as a number.
    pub fn decode_json(bytes: &[u8]) -> (r: Result<Self, Error>)
        ensures
            match r {
                Ok(id) => is_i64_json_integer(bytes@) && id.0 as int == json_integer_value(
                    bytes@,
                ),
                Err(e) => e == Error::MalformedIdentifier && !is_i64_json_integer(bytes@),
            },
    {
        match parse_json_integer(bytes) {
            Ok(v) => Ok(ChannelId(v)),
            Err(e) => Err(e),
        }
    }
}

impl From<Integer> for ChannelId {
    fn from(inner: Integer) -> (r: Self) {
        ChannelId::new(inner)
    }
}

impl vstd::std_specs::convert::FromSpecImpl<Integer> for ChannelId {
    open spec fn obeys_from_spec() -> bool {
        true
    }

    open spec fn from_spec(inner: Integer) -> Self {
        ChannelId(inner)
    }
}

impl From<ChannelId> for Integer {
    fn from(from: ChannelId) -> (r: Self) {
        from.0
    }
}

impl vstd::std_specs::convert::FromSpecImpl<ChannelId> for Integer {
    open spec fn obeys_from_spec() -> bool {
        true
    }

    open spec fn from_spec(from: ChannelId) -> Self {
        from.0
    }
}

impl ChatId {
    /// Total constructor: any 64-bit value is a structurally valid id.
    pub fn new(inner: Integer) -> (r: Self)
        ensures
            r == ChatId(inner),
    {
        ChatId(inner)
    }

    /// Encodes the id in its wire shape: a bare JSON number.
    pub fn encode_json(&self) -> (r: Vec<u8>)
        ensures
            r@ == int_bytes(self.0 as int),
    {
        let mut out: Vec<u8> = Vec::new();
        push_int(&mut out, self.0);
        out
    }

    /// Decodes the strict wire form: exactly a JSON integer in 64-bit range.
    /// A JSON string is rejected with the malformed-identifier error, never
    /// parsed as a number.
    pub fn decode_json(bytes: &[u8]) -> (r: Result<Self, Error>)
        ensures
            match r {
                Ok(id) => is_i64_json_integer(bytes@) && id.0 as int == json_integer_value(
                    bytes@,
                ),
                Err(e) => e == Error::MalformedIdentifier && !is_i64_json_integer(bytes@),
            },
    {
        match parse_json_integer(bytes) {
            Ok(v) => Ok(ChatId(v)),
            Err(e) => Err(e),
        }
    }
}

impl From<Integer> for ChatId {
    fn from(inner: Integer) -> (r: Self) {
        ChatId::new(inner)
    }
}

impl vstd::std_specs::convert::FromSpecImpl<Integer> for ChatId {
    open spec fn obeys_from_spec() -> bool {
        true
    }

    open spec fn from_spec(inner: Integer) -> Self {
        ChatId(inner)
    }
}

impl From<ChatId> for Integer {
    fn from(from: ChatId) -> (r: Self) {
        from.0
    }
}

impl vstd::std_specs::convert::FromSpecImpl<ChatId> for Integer {
    open spec fn obeys_from_spec() -> bool {
        true
    }

    open spec fn from_spec(from: ChatId) -> Self {
        from.0
    }
}

impl MessageId {
    /// Total constructor: any 64-bit value is a structurally valid id.
    pub fn new(inner: Integer) -> (r: Self)
        ensures
            r == MessageId(inner),
    {
        MessageId(inner)
    }

    /// Encodes the id in its wire shape: a bare JSON number.
    pub fn encode_json(&self) -> (r: Vec<u8>)
        ensures
            r@ == int_bytes(self.0 as int),
    {
        let mut out: Vec<u8> = Vec::new();
        push_int(&mut out, self.0);
        out
    }

    /// Decodes the strict wire form: exactly a JSON integer in 64-bit range.
    /// A JSON string is rejected with the malformed-identifier error, never
    /// parsed as a number.
    pub fn decode_json(bytes: &[u8]) -> (r: Result<Self, Error>)
        ensures
            match r {
                Ok(id) => is_i64_json_integer(bytes@) && id.0 as int == json_integer_value(
                    bytes@,
                ),
                Err(e) => e == Error::MalformedIdentifier && !is_i64_json_integer(bytes@),
            },
    {
        match parse_json_integer(bytes) {
            Ok(v) => Ok(MessageId(v)),
            Err(e) => Err(e),
        }
    }
}

impl From<Integer> for MessageId {
    fn from(inner: Integer) -> (r: Self) {
        MessageId::new(inner)
    }
}

impl vstd::std_specs::convert::FromSpecImpl<Integer> for MessageId {
    open spec fn obeys_from_spec() -> bool {
        true
    }

    open spec fn from_spec(inner: Integer) -> Self {
        MessageId(inner)
    }
}

impl From<MessageId> for Integer {
    fn from(from: MessageId) -> (r: Self) {
        from.0
    }
}

impl vstd::std_specs::convert::FromSpecImpl<MessageId> for Integer {
    open spec fn obeys_from_spec() -> bool {
        true
    }

    open spec fn from_spec(from: MessageId) -> Self {
        from.0
    }
}

impl ToChatRef for ChatId {
    open spec fn chat_ref_spec(&self) -> ChatRefV {
        ChatRefV::Id(self.0 as int)
    }

    fn to_chat_ref(&self) -> (r: ChatRef) {
        ChatRef::from_chat_id(*self)
    }
}

impl From<UserId> for ChatId {
    fn from(c: UserId) -> (r: Self) {
        ChatId::new(c.0)
    }
}

impl vstd::std_specs::convert::FromSpecImpl<UserId> for ChatId {
    open spec fn obeys_from_spec() -> bool {
        true
    }

    open spec fn from_spec(c: UserId) -> Self {
        ChatId(c.0)
    }
}

impl ToChatRef for UserId {
    open spec fn chat_ref_spec(&self) -> ChatRefV {
        ChatRefV::Id(self.0 as int)
    }

    fn to_chat_ref(&self) -> (r: ChatRef) {
        ChatRef::from_chat_id(ChatId::from(*self))
    }
}

impl From<GroupId> for ChatId {
    fn from(c: GroupId) -> (r: Self) {
        ChatId::new(c.0)
    }
}

impl vstd::std_specs::convert::FromSpecImpl<GroupId> for ChatId {
    open spec fn obeys_from_spec() -> bool {
        true
    }

    open spec fn from_spec(c: GroupId) -> Self {
        ChatId(c.0)
    }
}

impl ToChatRef for GroupId {
    open spec fn chat_ref_spec(&self) -> ChatRefV {
        ChatRefV::Id(self.0 as int)
    }

    fn to_chat_ref(&self) -> (r: ChatRef) {
        ChatRef::from_chat_id(ChatId::from(*self))
    }
}

impl From<SupergroupId> for ChatId {
    fn from(c: SupergroupId) -> (r: Self) {
        ChatId::new(c.0)
    }
}

impl vstd::std_specs::convert::FromSpecImpl<SupergroupId> for ChatId {
    open spec fn obeys_from_spec() -> bool {
        true
    }

    open spec fn from_spec(c: SupergroupId) -> Self {
        ChatId(c.0)
    }
}

impl ToChatRef for SupergroupId {
    open spec fn chat_ref_spec(&self) -> ChatRefV {
        ChatRefV::Id(self.0 as int)
    }

    fn to_chat_ref(&self) -> (r: ChatRef) {
        ChatRef::from_chat_id(ChatId::from(*self))
    }
}

impl From<ChannelId> for ChatId {
    fn from(c: ChannelId) -> (r: Self) {
        ChatId::new(c.0)
    }
}

impl vstd::std_specs::convert::FromSpecImpl<ChannelId> for ChatId {
    open spec fn obeys_from_spec() -> bool {
        true
    }

    open spec fn from_spec(c: ChannelId) -> Self {
        ChatId(c.0)
    }
}

impl ToChatRef for ChannelId {
    open spec fn chat_ref_spec(&self) -> ChatRefV {
        ChatRefV::Id(self.0 as int)
    }

    fn to_chat_ref(&self) -> (r: ChatRef) {
        ChatRef::from_chat_id(ChatId::from(*self))
    }
}

/// Law: every integer-kind identifier round-trips losslessly through its
/// primitive — constructing an id from a 64-bit value and converting it back
/// yields the value unchanged, for every kind.
pub proof fn lemma_id_primitive_round_trip(v: Integer)
    ensures
        <Integer as FromSpec<ChatId>>::from_spec(<ChatId as FromSpec<Integer>>::from_spec(v)) == v,
        <Integer as FromSpec<UserId>>::from_spec(<UserId as FromSpec<Integer>>::from_spec(v)) == v,
        <Integer as FromSpec<GroupId>>::from_spec(<GroupId as FromSpec<Integer>>::from_spec(v))
            == v,
        <Integer as FromSpec<SupergroupId>>::from_spec(
            <SupergroupId as FromSpec<Integer>>::from_spec(v),
        ) == v,
        <Integer as FromSpec<ChannelId>>::from_spec(
            <ChannelId as FromSpec<Integer>>::from_spec(v),
        ) == v,
        <Integer as FromSpec<MessageId>>::from_spec(
            <MessageId as FromSpec<Integer>>::from_spec(v),
        ) == v,
{
}

/// Law: a chat-family identifier always refers to a chat by its numeric id —
/// `to_chat_ref` yields the id form wrapping the widened `ChatId`, never the
/// username form.
pub proof fn lemma_chat_family_ref_is_by_id(
    c: ChatId,
    u: UserId,
    g: GroupId,
    s: SupergroupId,
    n: ChannelId,
)
    ensures
        c.chat_ref_spec() == ChatRefV::Id(c.0 as int),
        u.chat_ref_spec() == ChatRefV::Id(<ChatId as FromSpec<UserId>>::from_spec(u).0 as int),
        g.chat_ref_spec() == ChatRefV::Id(<ChatId as FromSpec<GroupId>>::from_spec(g).0 as int),
        s.chat_ref_spec() == ChatRefV::Id(
            <ChatId as FromSpec<SupergroupId>>::from_spec(s).0 as int,
        ),
        n.chat_ref_spec() == ChatRefV::Id(<ChatId as FromSpec<ChannelId>>::from_spec(n).0 as int),
{
}

} // verus!
