//! The requests that a logged-in user can make, and the message by which each
//! of them is put to the server.

use crate::message::{
    ChannelIdSize, ChannelType, ChunkModel, MessageHeader, MessageIdSize, MessageModel,
    RealmIdSize, UserIdSize,
};
use vstd::prelude::*;

verus! {

/// What a user may ask of the server.
pub enum Request {
    Mention { realm_id: RealmIdSize, channel_id: ChannelIdSize, chunks: Seq<ChunkModel> },
    Reply {
        realm_id: RealmIdSize,
        channel_id: ChannelIdSize,
        message_id: MessageIdSize,
        chunks: Seq<ChunkModel>,
    },
    Image { realm_id: RealmIdSize, channel_id: ChannelIdSize, image: Seq<u8> },
    Typing { realm_id: RealmIdSize, channel_id: ChannelIdSize },
    Join { realm_id: RealmIdSize, channel_type: ChannelType, channel_id: ChannelIdSize },
    HangUp { realm_id: RealmIdSize, channel_id: ChannelIdSize },
    AddChannel { realm_id: RealmIdSize, channel_type: ChannelType, channel_name: Seq<char> },
    RemoveChannel { realm_id: RealmIdSize, channel_type: ChannelType, channel_id: ChannelIdSize },
    AddRealm { realm_name: Seq<char> },
    RemoveRealm { realm_id: RealmIdSize },
    AddFriend { friend_id: UserIdSize },
    RemoveFriend { friend_id: UserIdSize },
    Disconnect,
}

/// The header of what `user_id` says in a channel of a realm.
pub open spec fn header(
    user_id: UserIdSize,
    realm_id: RealmIdSize,
    channel_id: ChannelIdSize,
) -> MessageHeader {
    MessageHeader { user_id, realm_id, channel_id }
}

/// The message by which the user `user_id` makes a request.
///
/// A request that is about no channel, or about no realm, has 0 in its place in
/// the header.
pub open spec fn request_message(user_id: UserIdSize, request: Request) -> MessageModel {
    match request {
        Request::Mention { realm_id, channel_id, chunks } => MessageModel::Text(
            header(user_id, realm_id, channel_id),
            chunks,
        ),
        Request::Reply { realm_id, channel_id, message_id, chunks } => MessageModel::Reply(
            header(user_id, realm_id, channel_id),
            message_id,
            chunks,
        ),
        Request::Image { realm_id, channel_id, image } => MessageModel::Image(
            header(user_id, realm_id, channel_id),
            image,
        ),
        Request::Typing { realm_id, channel_id } => MessageModel::Typing(
            header(user_id, realm_id, channel_id),
        ),
        Request::Join { realm_id, channel_type, channel_id } => match channel_type {
            ChannelType::TextChannel => MessageModel::JoinChannel(
                header(user_id, realm_id, channel_id),
                ChannelType::TextChannel,
            ),
            ChannelType::VoiceChannel => MessageModel::UserJoinedVoiceChannel(
                header(user_id, realm_id, channel_id),
            ),
        },
        Request::HangUp { realm_id, channel_id } => MessageModel::UserLeftVoiceChannel(
            header(user_id, realm_id, channel_id),
        ),
        Request::AddChannel { realm_id, channel_type, channel_name } => MessageModel::AddChannel(
            header(user_id, realm_id, 0),
            channel_type,
            channel_name,
        ),
        Request::RemoveChannel { realm_id, channel_type, channel_id } =>
            MessageModel::RemoveChannel(header(user_id, realm_id, channel_id), channel_type),
        Request::AddRealm { realm_name } => MessageModel::AddRealm(
            header(user_id, 0, 0),
            realm_name,
        ),
        Request::RemoveRealm { realm_id } => MessageModel::RemoveRealm(
            header(user_id, 0, 0),
            realm_id,
        ),
        Request::AddFriend { friend_id } => MessageModel::NewFriendRequest(
            header(user_id, 0, 0),
            friend_id,
        ),
        Request::RemoveFriend { friend_id } => MessageModel::RemoveFriend(
            header(user_id, 0, 0),
            friend_id,
        ),
        Request::Disconnect => MessageModel::Disconnecting(user_id),
    }
}

/// The user in whose name a message speaks, if it names one.
pub open spec fn sender(message: MessageModel) -> Option<UserIdSize> {
    match message {
        MessageModel::GetRealms(id) => Some(id),
        MessageModel::Disconnecting(id) => Some(id),
        MessageModel::Text(h, _) => Some(h.user_id),
        MessageModel::Reply(h, _, _) => Some(h.user_id),
        MessageModel::Image(h, _) => Some(h.user_id),
        MessageModel::Audio(h, _) => Some(h.user_id),
        MessageModel::Typing(h) => Some(h.user_id),
        MessageModel::JoinChannel(h, _) => Some(h.user_id),
        MessageModel::UserJoinedVoiceChannel(h) => Some(h.user_id),
        MessageModel::UserLeftVoiceChannel(h) => Some(h.user_id),
        MessageModel::AddChannel(h, _, _) => Some(h.user_id),
        MessageModel::RemoveChannel(h, _) => Some(h.user_id),
        MessageModel::AddRealm(h, _) => Some(h.user_id),
        MessageModel::RemoveRealm(h, _) => Some(h.user_id),
        MessageModel::NewFriendRequest(h, _) => Some(h.user_id),
        MessageModel::RemoveFriend(h, _) => Some(h.user_id),
        MessageModel::LoginAttempt(_) => None,
        MessageModel::LoginSuccess(_) => None,
        MessageModel::Disconnect => None,
        MessageModel::Other(_) => None,
    }
}

/// A request speaks in the name of the user who makes it.
pub proof fn law_request_speaks_for_its_user(user_id: UserIdSize, request: Request)
    ensures
        sender(request_message(user_id, request)) == Some(user_id),
{
}

/// The message of a request tells who made it and what was asked: no two
/// requests share one.
pub proof fn law_request_messages_are_unambiguous(
    user1: UserIdSize,
    request1: Request,
    user2: UserIdSize,
    request2: Request,
)
    requires
        request_message(user1, request1) == request_message(user2, request2),
    ensures
        user1 == user2,
        request1 == request2,
{
    law_request_speaks_for_its_user(user1, request1);
    law_request_speaks_for_its_user(user2, request2);
}

} // verus!
