//! What each operation of a client comes to, in terms of its inputs alone.

use crate::client::{
    reaction, ActionModel, ClientModel, ClosureModel, ConnectionCommand, ReceiveEventModel,
};
use crate::decimal::{decimal, socket_address_model};
use crate::message::{
    ChannelIdSize, ChannelType, ChunkModel, MessageHeader, MessageIdSize, MessageModel,
    RealmIdSize, UserIdSize, UserModel,
};
use crate::request::{request_message, Request};
use vstd::prelude::*;
use vstd::utf8::{decode_utf8, valid_utf8};

verus! {

/// A new client knows its server and its name, and nothing else: nobody is logged in
/// and nothing waits.
pub proof fn law_new_client_is_nobody(host: Seq<char>, port: u16, username: Seq<char>)
    ensures
        ({
            let client = ClientModel::initial(socket_address_model(host, port as nat), username);
            &&& client.address == host + seq![':'] + decimal(port as nat)
            &&& client.username == username
            &&& client.user is None
            &&& !client.is_logged_in
            &&& client.messages.len() == 0
            &&& client.realms.len() == 0
            &&& !client.can_stop_receiving
        }),
{
    assert(socket_address_model(host, port as nat) =~= host + seq![':'] + decimal(port as nat));
}

/// A client is well formed exactly when being logged in and having a user go
/// together.
pub proof fn law_well_formed_means_login_and_user_agree(client: ClientModel)
    ensures
        client.wf() == (client.is_logged_in == (client.user is Some)),
{
}

/// The id of a client is that of its user, and there is none without a user.
pub proof fn law_id_is_that_of_the_user(client: ClientModel)
    ensures
        client.user is None ==> client.user_id() is None,
        client.user matches Some(user) ==> client.user_id() == Some(user.id),
{
}

/// Taking the messages changes nothing but that none waits any more.
pub proof fn law_taking_messages_takes_only_messages(client: ClientModel)
    ensures
        ({
            let left = client.without_messages();
            &&& left.messages.len() == 0
            &&& left.address == client.address
            &&& left.username == client.username
            &&& left.user == client.user
            &&& left.is_logged_in == client.is_logged_in
            &&& left.realms == client.realms
            &&& left.can_stop_receiving == client.can_stop_receiving
        }),
{
}

/// Taking the realms changes nothing but that none waits any more.
pub proof fn law_taking_realms_takes_only_realms(client: ClientModel)
    ensures
        ({
            let left = client.without_realms();
            &&& left.realms.len() == 0
            &&& left.address == client.address
            &&& left.username == client.username
            &&& left.user == client.user
            &&& left.is_logged_in == client.is_logged_in
            &&& left.messages == client.messages
            &&& left.can_stop_receiving == client.can_stop_receiving
        }),
{
}

/// Starting a client starts to receive and then asks, once, for a login under the
/// client's name; the loop can then be stopped, and nothing else has changed.
pub proof fn law_starting_receives_and_then_logs_in(client: ClientModel)
    ensures
        client.starting().len() == 2,
        client.starting()[0] is StartReceiving,
        client.starting()[1] == ActionModel::Send(MessageModel::LoginAttempt(client.username)),
        ({
            let started = client.started();
            &&& started.can_stop_receiving
            &&& started.address == client.address
            &&& started.username == client.username
            &&& started.user == client.user
            &&& started.is_logged_in == client.is_logged_in
            &&& started.messages == client.messages
            &&& started.realms == client.realms
        }),
{
}

/// Whatever message comes, except for a login and for audio, waits for the user behind
/// those that wait already. Nothing else changes, nothing is sent or played, and
/// the loop goes round.
pub proof fn law_every_other_message_waits(client: ClientModel, message: MessageModel)
    requires
        !(message is LoginSuccess),
        !(message is Audio),
    ensures
        ({
            let event = ReceiveEventModel::Received(message);
            let after = client.received(event);
            &&& after.messages == client.messages.push(message)
            &&& after.address == client.address
            &&& after.username == client.username
            &&& after.user == client.user
            &&& after.is_logged_in == client.is_logged_in
            &&& after.realms == client.realms
            &&& after.can_stop_receiving == client.can_stop_receiving
            &&& reaction(event) == seq![ActionModel::PollCommands]
        }),
{
    let event = ReceiveEventModel::Received(message);
    assert(client.received(event).messages =~= client.messages.push(message));
}

/// A login makes its user the user of the client and asks for that user's realms.
/// Nothing else changes; in particular the login itself does not wait.
pub proof fn law_login_takes_effect(client: ClientModel, user: UserModel)
    ensures
        ({
            let event = ReceiveEventModel::Received(MessageModel::LoginSuccess(user));
            let after = client.received(event);
            &&& after.user == Some(user)
            &&& after.is_logged_in
            &&& after.messages == client.messages
            &&& after.address == client.address
            &&& after.username == client.username
            &&& after.realms == client.realms
            &&& after.can_stop_receiving == client.can_stop_receiving
            &&& reaction(event) == seq![
                ActionModel::Send(MessageModel::GetRealms(user.id)),
                ActionModel::PollCommands,
            ]
        }),
{
}

/// Audio is played under the id of its speaker, once and unchanged, and leaves the
/// client as it was.
pub proof fn law_audio_is_played(client: ClientModel, header: MessageHeader, audio: Seq<u8>)
    ensures
        ({
            let event = ReceiveEventModel::Received(MessageModel::Audio(header, audio));
            &&& client.received(event) == client
            &&& reaction(event) == seq![
                ActionModel::PlayAudio(header.user_id, audio),
                ActionModel::PollCommands,
            ]
        }),
{
    let event = ReceiveEventModel::Received(MessageModel::Audio(header, audio));
    assert(client.received(event).messages =~= client.messages);
}

/// Looking for a command leaves the client as it was. Without one the loop waits for a
/// message; with one it ends, in silence; and it ends with a complaint where none
/// can come any more.
pub proof fn law_commands_only_steer_the_loop(client: ClientModel, command: ConnectionCommand)
    ensures
        client.received(ReceiveEventModel::NoCommand) == client,
        client.received(ReceiveEventModel::Command(command)) == client,
        client.received(ReceiveEventModel::CommandsGone) == client,
        reaction(ReceiveEventModel::NoCommand) == seq![ActionModel::AcceptMessage],
        reaction(ReceiveEventModel::Command(command)) == seq![ActionModel::EndReceiving],
        reaction(ReceiveEventModel::CommandsGone) == seq![
            ActionModel::PrintError("No sender available to receive from"@),
            ActionModel::EndReceiving,
        ],
{
    assert(client.received(ReceiveEventModel::NoCommand).messages =~= client.messages);
    assert(client.received(ReceiveEventModel::Command(command)).messages =~= client.messages);
    assert(client.received(ReceiveEventModel::CommandsGone).messages =~= client.messages);
}

/// However the connection ends, a `Disconnect` waits for the user behind all else, and
/// nothing else of the client changes.
pub proof fn law_every_closure_leaves_a_disconnect(client: ClientModel, closure: ClosureModel)
    ensures
        ({
            let after = client.received(ReceiveEventModel::Closed(closure));
            &&& after.messages == client.messages.push(MessageModel::Disconnect)
            &&& after.address == client.address
            &&& after.username == client.username
            &&& after.user == client.user
            &&& after.is_logged_in == client.is_logged_in
            &&& after.realms == client.realms
            &&& after.can_stop_receiving == client.can_stop_receiving
        }),
{
    assert(client.received(ReceiveEventModel::Closed(closure)).messages
        =~= client.messages.push(MessageModel::Disconnect));
}

/// The end of the connection ends the loop. One that the server brought about is
/// reported with its code and its reason, one that the client brought about is not
/// reported, and any other is a failure.
pub proof fn law_closures_are_reported(code: u64, reason: Seq<u8>)
    ensures
        reaction(
            ReceiveEventModel::Closed(ClosureModel::ApplicationClosed { code, reason }),
        ) == seq![
            ActionModel::Print(
                "Connection closed. Code: "@ + decimal(code as nat) + ", Reason: "@
                    + decode_utf8(reason),
            ),
            ActionModel::EndReceiving,
        ],
        reaction(ReceiveEventModel::Closed(ClosureModel::LocallyClosed)) == seq![
            ActionModel::EndReceiving,
        ],
        reaction(ReceiveEventModel::Closed(ClosureModel::Failed)) == seq![
            ActionModel::PrintError("[client] unhandled stream error"@),
            ActionModel::EndReceiving,
        ],
{
}

/// The client can deal with every event but one: that the server closes the connection
/// for a reason that is not text.
pub proof fn law_only_an_unreadable_reason_is_left_out(event: ReceiveEventModel)
    ensures
        !event.is_readable() ==> event is Closed && event->Closed_0 is ApplicationClosed
            && !valid_utf8(event->Closed_0->reason),
        event is Closed && event->Closed_0 is ApplicationClosed && !valid_utf8(
            event->Closed_0->reason,
        ) ==> !event.is_readable(),
{
}

/// Without a user no request is put to the server.
pub proof fn law_nobody_asks_for_nothing(client: ClientModel, request: Request)
    requires
        client.user is None,
    ensures
        client.outgoing(request) is None,
        client.sending(request).len() == 0,
{
}

/// What a client sends on a request depends on the request and on the id of the user,
/// and on nothing else of the client.
pub proof fn law_requests_depend_on_the_user_only(
    client: ClientModel,
    other: ClientModel,
    request: Request,
)
    requires
        client.user is Some,
        other.user is Some,
        client.user->0.id == other.user->0.id,
    ensures
        client.outgoing(request) == other.outgoing(request),
        client.outgoing(request) == Some(request_message(client.user->0.id, request)),
        client.sending(request) == other.sending(request),
        client.sending(request) == seq![
            ActionModel::Send(request_message(client.user->0.id, request)),
        ],
{
}

/// Text is said by the user, in the realm and in the channel that were asked for, as
/// it was given.
pub proof fn law_mention_is_said_where_asked(
    client: ClientModel,
    user: UserModel,
    realm_id: RealmIdSize,
    channel_id: ChannelIdSize,
    chunks: Seq<ChunkModel>,
)
    requires
        client.user == Some(user),
    ensures
        client.outgoing(Request::Mention { realm_id, channel_id, chunks }) == Some(
            MessageModel::Text(MessageHeader { user_id: user.id, realm_id, channel_id }, chunks),
        ),
{
}

/// A reply is given by the user, in the realm and in the channel that were asked for,
/// to the message that was asked for, as it was given.
pub proof fn law_reply_is_given_where_asked(
    client: ClientModel,
    user: UserModel,
    realm_id: RealmIdSize,
    channel_id: ChannelIdSize,
    message_id: MessageIdSize,
    chunks: Seq<ChunkModel>,
)
    requires
        client.user == Some(user),
    ensures
        client.outgoing(Request::Reply { realm_id, channel_id, message_id, chunks }) == Some(
            MessageModel::Reply(
                MessageHeader { user_id: user.id, realm_id, channel_id },
                message_id,
                chunks,
            ),
        ),
{
}

/// An image is shown by the user, in the realm and in the channel that were asked for,
/// as it was given.
pub proof fn law_image_is_shown_where_asked(
    client: ClientModel,
    user: UserModel,
    realm_id: RealmIdSize,
    channel_id: ChannelIdSize,
    image: Seq<u8>,
)
    requires
        client.user == Some(user),
    ensures
        client.outgoing(Request::Image { realm_id, channel_id, image }) == Some(
            MessageModel::Image(MessageHeader { user_id: user.id, realm_id, channel_id }, image),
        ),
{
}

/// The user is said to type in the realm and in the channel that were asked for.
pub proof fn law_typing_is_shown_where_asked(
    client: ClientModel,
    user: UserModel,
    realm_id: RealmIdSize,
    channel_id: ChannelIdSize,
)
    requires
        client.user == Some(user),
    ensures
        client.outgoing(Request::Typing { realm_id, channel_id }) == Some(
            MessageModel::Typing(MessageHeader { user_id: user.id, realm_id, channel_id }),
        ),
{
}

/// The user joins the channel that was asked for, in the realm that was asked for: a
/// text channel by joining it as such, a voice channel by being in it.
pub proof fn law_joining_joins_the_channel_asked_for(
    client: ClientModel,
    user: UserModel,
    realm_id: RealmIdSize,
    channel_id: ChannelIdSize,
)
    requires
        client.user == Some(user),
    ensures
        client.outgoing(
            Request::Join { realm_id, channel_type: ChannelType::TextChannel, channel_id },
        ) == Some(
            MessageModel::JoinChannel(
                MessageHeader { user_id: user.id, realm_id, channel_id },
                ChannelType::TextChannel,
            ),
        ),
        client.outgoing(
            Request::Join { realm_id, channel_type: ChannelType::VoiceChannel, channel_id },
        ) == Some(
            MessageModel::UserJoinedVoiceChannel(
                MessageHeader { user_id: user.id, realm_id, channel_id },
            ),
        ),
{
}

/// A channel is added to the realm that was asked for, with its kind and its name. It
/// has no id yet.
pub proof fn law_channel_is_added_as_asked(
    client: ClientModel,
    user: UserModel,
    realm_id: RealmIdSize,
    channel_type: ChannelType,
    channel_name: Seq<char>,
)
    requires
        client.user == Some(user),
    ensures
        client.outgoing(Request::AddChannel { realm_id, channel_type, channel_name }) == Some(
            MessageModel::AddChannel(
                MessageHeader { user_id: user.id, realm_id, channel_id: 0 },
                channel_type,
                channel_name,
            ),
        ),
{
}

/// The channel that was asked for, and of the kind that was asked for, is removed from
/// the realm that was asked for.
pub proof fn law_channel_is_removed_as_asked(
    client: ClientModel,
    user: UserModel,
    realm_id: RealmIdSize,
    channel_type: ChannelType,
    channel_id: ChannelIdSize,
)
    requires
        client.user == Some(user),
    ensures
        client.outgoing(Request::RemoveChannel { realm_id, channel_type, channel_id }) == Some(
            MessageModel::RemoveChannel(
                MessageHeader { user_id: user.id, realm_id, channel_id },
                channel_type,
            ),
        ),
{
}

/// A realm is added under the name that was asked for, and the realm that was asked
/// for is removed. Neither is said in any channel.
pub proof fn law_realms_are_changed_as_asked(
    client: ClientModel,
    user: UserModel,
    realm_name: Seq<char>,
    realm_id: RealmIdSize,
)
    requires
        client.user == Some(user),
    ensures
        client.outgoing(Request::AddRealm { realm_name }) == Some(
            MessageModel::AddRealm(
                MessageHeader { user_id: user.id, realm_id: 0, channel_id: 0 },
                realm_name,
            ),
        ),
        client.outgoing(Request::RemoveRealm { realm_id }) == Some(
            MessageModel::RemoveRealm(
                MessageHeader { user_id: user.id, realm_id: 0, channel_id: 0 },
                realm_id,
            ),
        ),
{
}

/// The user who was asked for is asked to be a friend, or is one no more. Neither is
/// said in any channel.
pub proof fn law_friends_are_changed_as_asked(
    client: ClientModel,
    user: UserModel,
    friend_id: UserIdSize,
)
    requires
        client.user == Some(user),
    ensures
        client.outgoing(Request::AddFriend { friend_id }) == Some(
            MessageModel::NewFriendRequest(
                MessageHeader { user_id: user.id, realm_id: 0, channel_id: 0 },
                friend_id,
            ),
        ),
        client.outgoing(Request::RemoveFriend { friend_id }) == Some(
            MessageModel::RemoveFriend(
                MessageHeader { user_id: user.id, realm_id: 0, channel_id: 0 },
                friend_id,
            ),
        ),
{
}

/// A client with a user hangs up by telling the server that the user has left the
/// channel that was asked for, and then stopping the audio; one without does nothing.
/// Nothing else of the client matters.
pub proof fn law_hanging_up_tells_the_server_and_stops_the_audio(
    client: ClientModel,
    realm_id: RealmIdSize,
    channel_id: ChannelIdSize,
)
    ensures
        client.user is None ==> client.hanging_up(realm_id, channel_id).len() == 0,
        client.user matches Some(user) ==> client.hanging_up(realm_id, channel_id) == seq![
            ActionModel::Send(
                MessageModel::UserLeftVoiceChannel(
                    MessageHeader { user_id: user.id, realm_id, channel_id },
                ),
            ),
            ActionModel::StopAudio,
        ],
{
}

/// A client with a user speaks in a voice channel by telling the audio manager who
/// speaks, then recording into the realm and the channel that were asked for, and
/// then listening; one without does nothing. Nothing else of the client matters.
pub proof fn law_voice_goes_where_asked(
    client: ClientModel,
    realm_id: RealmIdSize,
    channel_id: ChannelIdSize,
)
    ensures
        client.user is None ==> client.connecting_voice(realm_id, channel_id).len() == 0,
        client.user matches Some(user) ==> client.connecting_voice(realm_id, channel_id) == seq![
            ActionModel::SetAudioUser(user.id),
            ActionModel::StartRecording(MessageHeader { user_id: user.id, realm_id, channel_id }),
            ActionModel::StartListening,
        ],
{
}

/// The channel that a user joins, speaks in and leaves is one and the same: all three
/// carry the same header.
pub proof fn law_voice_is_joined_spoken_in_and_left_alike(
    client: ClientModel,
    realm_id: RealmIdSize,
    channel_id: ChannelIdSize,
)
    requires
        client.user is Some,
    ensures
        ({
            let joined = client.outgoing(
                Request::Join { realm_id, channel_type: ChannelType::VoiceChannel, channel_id },
            );
            let recorded = client.connecting_voice(realm_id, channel_id)[1];
            let left = client.hanging_up(realm_id, channel_id)[0];
            recorded matches ActionModel::StartRecording(header) && joined == Some(
                MessageModel::UserJoinedVoiceChannel(header),
            ) && left == ActionModel::Send(MessageModel::UserLeftVoiceChannel(header))
        }),
{
}

/// A client leaves the server by saying so, if it has a user, closing the connection,
/// waiting for that, and stopping its receiving loop, if it can. After that the loop
/// cannot be stopped again, and nothing else has changed.
pub proof fn law_leaving_says_so_closes_and_stops(client: ClientModel)
    ensures
        ({
            let actions = client.disconnecting();
            let close = ActionModel::Close { code: 0, reason: "done"@ };
            let wait = ActionModel::AwaitClosed;
            let stop = ActionModel::StopReceiving;
            match (client.user, client.can_stop_receiving) {
                (Some(user), true) => actions == seq![
                    ActionModel::Send(MessageModel::Disconnecting(user.id)),
                    close,
                    wait,
                    stop,
                ],
                (Some(user), false) => actions == seq![
                    ActionModel::Send(MessageModel::Disconnecting(user.id)),
                    close,
                    wait,
                ],
                (None, true) => actions == seq![close, wait, stop],
                (None, false) => actions == seq![close, wait],
            }
        }),
        ({
            let left = client.disconnected();
            &&& !left.can_stop_receiving
            &&& left.address == client.address
            &&& left.username == client.username
            &&& left.user == client.user
            &&& left.is_logged_in == client.is_logged_in
            &&& left.messages == client.messages
            &&& left.realms == client.realms
        }),
{
    let actions = client.disconnecting();
    let close = ActionModel::Close { code: 0, reason: "done"@ };
    let wait = ActionModel::AwaitClosed;
    let stop = ActionModel::StopReceiving;
    match (client.user, client.can_stop_receiving) {
        (Some(user), true) => {
            let leave = ActionModel::Send(MessageModel::Disconnecting(user.id));
            assert(actions =~= seq![leave, close, wait, stop]);
        },
        (Some(user), false) => {
            let leave = ActionModel::Send(MessageModel::Disconnecting(user.id));
            assert(actions =~= seq![leave, close, wait]);
        },
        (None, true) => {
            assert(actions =~= seq![close, wait, stop]);
        },
        (None, false) => {
            assert(actions =~= seq![close, wait]);
        },
    }
}

} // verus!
