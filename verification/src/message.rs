//! What client and server say to each other.
//!
//! Each type that holds text or bytes has a model, in which they are sequences;
//! the contracts speak of the models.

use vstd::prelude::*;

verus! {

/// Identifies a user.
pub type UserIdSize = u64;

/// Identifies a realm.
pub type RealmIdSize = u64;

/// Identifies a channel of a realm.
pub type ChannelIdSize = u64;

/// Identifies a message of a channel.
pub type MessageIdSize = u64;

/// The two kinds of channels that a realm has.
#[derive(Debug, Clone, Copy, PartialEq, Eq, Structural)]
pub enum ChannelType {
    TextChannel,
    VoiceChannel,
}

/// Who speaks, and where.
#[derive(Debug, Clone, Copy, PartialEq, Eq, Structural)]
pub struct MessageHeader {
    pub user_id: UserIdSize,
    pub realm_id: RealmIdSize,
    pub channel_id: ChannelIdSize,
}

impl MessageHeader {
    /// The header of what `user_id` says in a channel of a realm.
    pub fn new(user_id: UserIdSize, realm_id: RealmIdSize, channel_id: ChannelIdSize) -> (header:
        MessageHeader)
        ensures
            header == (MessageHeader { user_id, realm_id, channel_id }),
    {
        MessageHeader { user_id, realm_id, channel_id }
    }
}

/// A user that the server knows.
#[derive(Debug, PartialEq, Eq)]
pub struct User {
    id: UserIdSize,
    username: String,
}

/// The model of a `User`.
pub struct UserModel {
    pub id: UserIdSize,
    pub username: Seq<char>,
}

impl View for User {
    type V = UserModel;

    closed spec fn view(&self) -> UserModel {
        UserModel { id: self.id, username: self.username@ }
    }
}

impl User {
    /// The user with this id and name.
    pub fn new(id: UserIdSize, username: String) -> (user: User)
        ensures
            user@ == (UserModel { id, username: username@ }),
    {
        User { id, username }
    }

    /// The user's id.
    pub fn get_id(&self) -> (id: UserIdSize)
        ensures
            id == self@.id,
    {
        self.id
    }

    /// The user's name.
    pub fn get_username(&self) -> (username: &str)
        ensures
            username@ == self@.username,
    {
        self.username.as_str()
    }
}

/// A realm, as the server describes it.
#[derive(Debug, PartialEq, Eq)]
pub struct RealmDescription {
    pub id: RealmIdSize,
    pub name: String,
}

/// The model of a `RealmDescription`.
pub struct RealmModel {
    pub id: RealmIdSize,
    pub name: Seq<char>,
}

impl View for RealmDescription {
    type V = RealmModel;

    open spec fn view(&self) -> RealmModel {
        RealmModel { id: self.id, name: self.name@ }
    }
}

/// The contents of a message.
///
/// Text comes in chunks; a chunk that mentions a user carries the user's id.
#[derive(Debug, PartialEq, Eq)]
pub enum MessageType {
    /// A user asks to be logged in under a name.
    LoginAttempt(String),
    /// The server has logged the user in.
    LoginSuccess(User),
    /// A user asks for the realms that the user is part of.
    GetRealms(UserIdSize),
    /// The connection is gone.
    Disconnect,
    /// A user is about to leave the server.
    Disconnecting(UserIdSize),
    Text((MessageHeader, Vec<(String, Option<UserIdSize>)>)),
    Reply((MessageHeader, MessageIdSize, Vec<(String, Option<UserIdSize>)>)),
    Image((MessageHeader, Vec<u8>)),
    Audio((MessageHeader, Vec<u8>)),
    Typing(MessageHeader),
    JoinChannel((MessageHeader, ChannelType)),
    UserJoinedVoiceChannel(MessageHeader),
    UserLeftVoiceChannel(MessageHeader),
    AddChannel((MessageHeader, ChannelType, String)),
    RemoveChannel((MessageHeader, ChannelType)),
    AddRealm((MessageHeader, String)),
    RemoveRealm((MessageHeader, RealmIdSize)),
    NewFriendRequest((MessageHeader, UserIdSize)),
    RemoveFriend((MessageHeader, UserIdSize)),
    /// Anything else that the server may say, in its encoded form. The client
    /// hands it on unread.
    Other(Vec<u8>),
}

/// The model of a chunk of text.
pub type ChunkModel = (Seq<char>, Option<UserIdSize>);

/// The model of a `MessageType`, and of the `Message` that holds it.
pub enum MessageModel {
    LoginAttempt(Seq<char>),
    LoginSuccess(UserModel),
    GetRealms(UserIdSize),
    Disconnect,
    Disconnecting(UserIdSize),
    Text(MessageHeader, Seq<ChunkModel>),
    Reply(MessageHeader, MessageIdSize, Seq<ChunkModel>),
    Image(MessageHeader, Seq<u8>),
    Audio(MessageHeader, Seq<u8>),
    Typing(MessageHeader),
    JoinChannel(MessageHeader, ChannelType),
    UserJoinedVoiceChannel(MessageHeader),
    UserLeftVoiceChannel(MessageHeader),
    AddChannel(MessageHeader, ChannelType, Seq<char>),
    RemoveChannel(MessageHeader, ChannelType),
    AddRealm(MessageHeader, Seq<char>),
    RemoveRealm(MessageHeader, RealmIdSize),
    NewFriendRequest(MessageHeader, UserIdSize),
    RemoveFriend(MessageHeader, UserIdSize),
    Other(Seq<u8>),
}

/// The model of the chunks of a text.
pub open spec fn chunks_model(chunks: Seq<(String, Option<UserIdSize>)>) -> Seq<ChunkModel> {
    chunks.map_values(|chunk: (String, Option<UserIdSize>)| (chunk.0@, chunk.1))
}

impl View for MessageType {
    type V = MessageModel;

    open spec fn view(&self) -> MessageModel {
        match *self {
            MessageType::LoginAttempt(username) => MessageModel::LoginAttempt(username@),
            MessageType::LoginSuccess(user) => MessageModel::LoginSuccess(user@),
            MessageType::GetRealms(id) => MessageModel::GetRealms(id),
            MessageType::Disconnect => MessageModel::Disconnect,
            MessageType::Disconnecting(id) => MessageModel::Disconnecting(id),
            MessageType::Text(text) => MessageModel::Text(text.0, chunks_model(text.1@)),
            MessageType::Reply(reply) => MessageModel::Reply(
                reply.0,
                reply.1,
                chunks_model(reply.2@),
            ),
            MessageType::Image(image) => MessageModel::Image(image.0, image.1@),
            MessageType::Audio(audio) => MessageModel::Audio(audio.0, audio.1@),
            MessageType::Typing(header) => MessageModel::Typing(header),
            MessageType::JoinChannel(join) => MessageModel::JoinChannel(join.0, join.1),
            MessageType::UserJoinedVoiceChannel(header) => MessageModel::UserJoinedVoiceChannel(
                header,
            ),
            MessageType::UserLeftVoiceChannel(header) => MessageModel::UserLeftVoiceChannel(header),
            MessageType::AddChannel(added) => MessageModel::AddChannel(added.0, added.1, added.2@),
            MessageType::RemoveChannel(removed) => MessageModel::RemoveChannel(
                removed.0,
                removed.1,
            ),
            MessageType::AddRealm(added) => MessageModel::AddRealm(added.0, added.1@),
            MessageType::RemoveRealm(removed) => MessageModel::RemoveRealm(removed.0, removed.1),
            MessageType::NewFriendRequest(friend) => MessageModel::NewFriendRequest(
                friend.0,
                friend.1,
            ),
            MessageType::RemoveFriend(friend) => MessageModel::RemoveFriend(friend.0, friend.1),
            MessageType::Other(bytes) => MessageModel::Other(bytes@),
        }
    }
}

/// A message between client and server.
#[derive(Debug, PartialEq, Eq)]
pub struct Message {
    pub message: MessageType,
}

impl View for Message {
    type V = MessageModel;

    open spec fn view(&self) -> MessageModel {
        self.message@
    }
}

impl From<MessageType> for Message {
    fn from(message: MessageType) -> (result: Message) {
        Message { message }
    }
}

impl vstd::std_specs::convert::FromSpecImpl<MessageType> for Message {
    open spec fn obeys_from_spec() -> bool {
        true
    }

    open spec fn from_spec(message: MessageType) -> Message {
        Message { message }
    }
}

/// The models of a sequence of messages.
pub open spec fn messages_model(messages: Seq<Message>) -> Seq<MessageModel> {
    messages.map_values(|message: Message| message@)
}

/// The model of a message that may be missing.
pub open spec fn optional_message_model(message: Option<Message>) -> Option<MessageModel> {
    match message {
        Some(message) => Some(message@),
        None => None,
    }
}

} // verus!
