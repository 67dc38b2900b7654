//! What holds of a client over its whole life, whatever happens to it.

use crate::client::{queued, reaction, ActionModel, ClientModel, ReceiveEventModel};
use crate::message::{
    ChannelIdSize, MessageModel, RealmIdSize, RealmModel, UserIdSize, UserModel,
};
use crate::request::{request_message, sender, Request};
use vstd::prelude::*;

verus! {

/// What can happen to a client: the calls that change it.
pub enum Step {
    /// `run_client`
    Start,
    /// `receive_data`
    Receive(ReceiveEventModel),
    /// `get_new_messages`
    TakeMessages,
    /// `get_realms`
    TakeRealms,
    /// `disconnect`
    Disconnect,
}

/// The client after a step.
pub open spec fn after(client: ClientModel, step: Step) -> ClientModel {
    match step {
        Step::Start => client.started(),
        Step::Receive(event) => client.received(event),
        Step::TakeMessages => client.without_messages(),
        Step::TakeRealms => client.without_realms(),
        Step::Disconnect => client.disconnected(),
    }
}

/// The client after some steps.
pub open spec fn run(client: ClientModel, steps: Seq<Step>) -> ClientModel
    decreases steps.len(),
{
    if steps.len() == 0 {
        client
    } else {
        after(run(client, steps.drop_last()), steps.last())
    }
}

/// The messages that the calls of `get_new_messages` among the steps return, one
/// call after the other.
pub open spec fn taken(client: ClientModel, steps: Seq<Step>) -> Seq<MessageModel>
    decreases steps.len(),
{
    if steps.len() == 0 {
        seq![]
    } else {
        taken(client, steps.drop_last()) + match steps.last() {
            Step::TakeMessages => run(client, steps.drop_last()).messages,
            _ => seq![],
        }
    }
}

/// The messages that the events among the steps bring for the user.
pub open spec fn arrived(steps: Seq<Step>) -> Seq<MessageModel>
    decreases steps.len(),
{
    if steps.len() == 0 {
        seq![]
    } else {
        arrived(steps.drop_last()) + match steps.last() {
            Step::Receive(event) => queued(event),
            _ => seq![],
        }
    }
}

/// The user of the last login among the steps.
pub open spec fn last_login(steps: Seq<Step>) -> Option<UserModel>
    decreases steps.len(),
{
    if steps.len() == 0 {
        None
    } else {
        match steps.last() {
            Step::Receive(ReceiveEventModel::Received(MessageModel::LoginSuccess(user))) => Some(
                user,
            ),
            _ => last_login(steps.drop_last()),
        }
    }
}

/// The messages that are sent among some actions.
pub open spec fn sends(actions: Seq<ActionModel>) -> Seq<MessageModel>
    decreases actions.len(),
{
    if actions.len() == 0 {
        seq![]
    } else {
        sends(actions.drop_last()) + match actions.last() {
            ActionModel::Send(message) => seq![message],
            _ => seq![],
        }
    }
}

/// The audio that is played among some actions, each piece with its speaker.
pub open spec fn plays(actions: Seq<ActionModel>) -> Seq<(UserIdSize, Seq<u8>)>
    decreases actions.len(),
{
    if actions.len() == 0 {
        seq![]
    } else {
        plays(actions.drop_last()) + match actions.last() {
            ActionModel::PlayAudio(user_id, audio) => seq![(user_id, audio)],
            _ => seq![],
        }
    }
}

/// What the receiving loop does over the steps.
pub open spec fn reactions(steps: Seq<Step>) -> Seq<ActionModel>
    decreases steps.len(),
{
    if steps.len() == 0 {
        seq![]
    } else {
        reactions(steps.drop_last()) + match steps.last() {
            Step::Receive(event) => reaction(event),
            _ => seq![],
        }
    }
}

/// The realms that are asked for on the logins among the steps.
pub open spec fn realm_requests(steps: Seq<Step>) -> Seq<MessageModel>
    decreases steps.len(),
{
    if steps.len() == 0 {
        seq![]
    } else {
        realm_requests(steps.drop_last()) + match steps.last() {
            Step::Receive(ReceiveEventModel::Received(MessageModel::LoginSuccess(user))) => seq![
                MessageModel::GetRealms(user.id),
            ],
            _ => seq![],
        }
    }
}

/// The audio that is received among the steps, each piece with its speaker.
pub open spec fn audio_received(steps: Seq<Step>) -> Seq<(UserIdSize, Seq<u8>)>
    decreases steps.len(),
{
    if steps.len() == 0 {
        seq![]
    } else {
        audio_received(steps.drop_last()) + match steps.last() {
            Step::Receive(ReceiveEventModel::Received(MessageModel::Audio(header, audio))) => seq![
                (header.user_id, audio),
            ],
            _ => seq![],
        }
    }
}

proof fn lemma_sends_and_plays_add_up(first: Seq<ActionModel>, second: Seq<ActionModel>)
    ensures
        sends(first + second) == sends(first) + sends(second),
        plays(first + second) == plays(first) + plays(second),
    decreases second.len(),
{
    if second.len() == 0 {
        assert(first + second =~= first);
        assert(sends(first) + sends(second) =~= sends(first));
        assert(plays(first) + plays(second) =~= plays(first));
    } else {
        lemma_sends_and_plays_add_up(first, second.drop_last());
        assert((first + second).drop_last() =~= first + second.drop_last());
        assert((first + second).last() == second.last());
        assert(sends(first + second) =~= sends(first) + sends(second));
        assert(plays(first + second) =~= plays(first) + plays(second));
    }
}

proof fn lemma_sends_and_plays_of_a_reaction(event: ReceiveEventModel)
    ensures
        sends(reaction(event)) == (match event {
            ReceiveEventModel::Received(MessageModel::LoginSuccess(user)) => seq![
                MessageModel::GetRealms(user.id),
            ],
            _ => seq![],
        }),
        plays(reaction(event)) == (match event {
            ReceiveEventModel::Received(MessageModel::Audio(header, audio)) => seq![
                (header.user_id, audio),
            ],
            _ => seq![],
        }),
{
    reveal_with_fuel(sends, 3);
    reveal_with_fuel(plays, 3);
    let actions = reaction(event);
    if actions.len() == 2 {
        assert(actions.drop_last() =~= seq![actions[0]]);
        assert(seq![actions[0]].drop_last() =~= seq![]);
    } else {
        assert(actions.drop_last() =~= seq![]);
    }
}

/// Over its whole life the receiving loop sends one request for realms on each login,
/// for the user of that login, and nothing else; and it plays every piece of audio
/// that is received, under its speaker, and nothing else. Both in the order of
/// arrival.
pub proof fn law_logins_are_answered_and_audio_is_played_in_order(steps: Seq<Step>)
    ensures
        sends(reactions(steps)) == realm_requests(steps),
        plays(reactions(steps)) == audio_received(steps),
    decreases steps.len(),
{
    if steps.len() > 0 {
        let before = reactions(steps.drop_last());
        law_logins_are_answered_and_audio_is_played_in_order(steps.drop_last());
        match steps.last() {
            Step::Receive(event) => {
                lemma_sends_and_plays_add_up(before, reaction(event));
                lemma_sends_and_plays_of_a_reaction(event);
            },
            _ => {
                assert(reactions(steps) =~= before);
            },
        }
        assert(sends(reactions(steps)) =~= realm_requests(steps));
        assert(plays(reactions(steps)) =~= audio_received(steps));
    }
}

/// No message is lost, doubled or moved: what the user has taken, and after it
/// what still waits, is what waited at first, and after it what has arrived.
pub proof fn law_messages_are_delivered_in_order(client: ClientModel, steps: Seq<Step>)
    ensures
        taken(client, steps) + run(client, steps).messages == client.messages + arrived(steps),
    decreases steps.len(),
{
    if steps.len() > 0 {
        law_messages_are_delivered_in_order(client, steps.drop_last());
        let before = run(client, steps.drop_last());
        let t = taken(client, steps.drop_last());
        match steps.last() {
            Step::Receive(event) => {
                assert(after(before, steps.last()).messages =~= before.messages + queued(event));
                assert(t + seq![] + (before.messages + queued(event)) =~= (t + before.messages)
                    + queued(event));
                assert(client.messages + (arrived(steps.drop_last()) + queued(event)) =~= (
                client.messages + arrived(steps.drop_last())) + queued(event));
            },
            _ => {
                assert(taken(client, steps) + run(client, steps).messages =~= t + before.messages);
                assert(arrived(steps) =~= arrived(steps.drop_last()));
            },
        }
    } else {
        assert(taken(client, steps) + client.messages =~= client.messages + arrived(steps));
    }
}

/// After the waiting messages have been taken, none waits.
pub proof fn law_messages_are_taken_once(client: ClientModel)
    ensures
        client.without_messages().messages.len() == 0,
        client.without_messages().without_messages() == client.without_messages(),
{
}

/// A client is logged in exactly when it has a user, and the user is that of the
/// last login.
pub proof fn law_user_is_that_of_the_last_login(
    address: Seq<char>,
    username: Seq<char>,
    steps: Seq<Step>,
)
    ensures
        run(ClientModel::initial(address, username), steps).wf(),
        run(ClientModel::initial(address, username), steps).user == last_login(steps),
    decreases steps.len(),
{
    if steps.len() > 0 {
        law_user_is_that_of_the_last_login(address, username, steps.drop_last());
    }
}

/// Every step keeps a client well formed.
pub proof fn law_steps_keep_clients_well_formed(client: ClientModel, steps: Seq<Step>)
    requires
        client.wf(),
    ensures
        run(client, steps).wf(),
    decreases steps.len(),
{
    if steps.len() > 0 {
        law_steps_keep_clients_well_formed(client, steps.drop_last());
    }
}

/// A client that is logged in stays so.
pub proof fn law_login_is_kept(client: ClientModel, steps: Seq<Step>)
    requires
        client.wf(),
        client.is_logged_in,
    ensures
        run(client, steps).is_logged_in,
        run(client, steps).user is Some,
    decreases steps.len(),
{
    if steps.len() > 0 {
        law_login_is_kept(client, steps.drop_last());
    }
}

/// A client keeps its server and the name that it logs in under.
pub proof fn law_address_and_name_are_kept(client: ClientModel, steps: Seq<Step>)
    ensures
        run(client, steps).address == client.address,
        run(client, steps).username == client.username,
        run(client, steps).starting() == client.starting(),
    decreases steps.len(),
{
    if steps.len() > 0 {
        law_address_and_name_are_kept(client, steps.drop_last());
    }
}

/// Nothing makes realms wait for the user: there are none to take, ever.
pub proof fn law_no_realms_wait(address: Seq<char>, username: Seq<char>, steps: Seq<Step>)
    ensures
        run(ClientModel::initial(address, username), steps).realms == Seq::<RealmModel>::empty(),
    decreases steps.len(),
{
    if steps.len() > 0 {
        law_no_realms_wait(address, username, steps.drop_last());
    }
}

/// A request is put to the server exactly when the client is logged in.
pub proof fn law_requests_need_a_login(client: ClientModel, request: Request)
    requires
        client.wf(),
    ensures
        client.outgoing(request) is Some <==> client.is_logged_in,
{
}

/// Hanging up and connecting to a voice channel do something exactly when the
/// client is logged in.
pub proof fn law_voice_needs_a_login(
    client: ClientModel,
    realm_id: RealmIdSize,
    channel_id: ChannelIdSize,
)
    requires
        client.wf(),
    ensures
        client.hanging_up(realm_id, channel_id).len() > 0 <==> client.is_logged_in,
        client.connecting_voice(realm_id, channel_id).len() > 0 <==> client.is_logged_in,
{
}

/// The audio manager records in the name of the user whom it was told before, and
/// that is the user who is logged in.
pub proof fn law_audio_is_recorded_for_the_user(
    client: ClientModel,
    realm_id: RealmIdSize,
    channel_id: ChannelIdSize,
)
    requires
        client.user is Some,
    ensures
        ({
            let actions = client.connecting_voice(realm_id, channel_id);
            &&& actions[0] == ActionModel::SetAudioUser(client.user->0.id)
            &&& actions[1] is StartRecording
            &&& actions[1]->StartRecording_0.user_id == client.user->0.id
            &&& actions[2] == ActionModel::StartListening
        }),
{
}

/// What a client sends on a request carries the id of the last login, whatever
/// came before.
pub proof fn law_requests_carry_the_last_login(
    address: Seq<char>,
    username: Seq<char>,
    steps: Seq<Step>,
    request: Request,
)
    ensures
        ({
            let client = run(ClientModel::initial(address, username), steps);
            match last_login(steps) {
                Some(user) => client.outgoing(request) == Some(request_message(user.id, request))
                    && sender(client.outgoing(request)->0) == Some(user.id),
                None => client.outgoing(request) is None,
            }
        }),
{
    law_user_is_that_of_the_last_login(address, username, steps);
}

/// A login is answered by asking for the realms of the very user who is then
/// logged in.
pub proof fn law_login_asks_for_realms(client: ClientModel, user: UserModel)
    ensures
        ({
            let event = ReceiveEventModel::Received(MessageModel::LoginSuccess(user));
            &&& client.received(event).user == Some(user)
            &&& client.received(event).is_logged_in
            &&& client.received(event).messages == client.messages
            &&& reaction(event)[0] == ActionModel::Send(MessageModel::GetRealms(user.id))
        }),
{
}

/// The last thing that the receiving loop does on an event says how it goes on:
/// it waits for a message after having found no command, it ends on a command, on
/// the loss of its commands and at the end of the connection, and it goes round
/// after every message. Nothing before the last thing says so.
pub proof fn law_receiving_goes_on_until_told(event: ReceiveEventModel)
    ensures
        reaction(event).len() > 0,
        reaction(event).last() == (match event {
            ReceiveEventModel::NoCommand => ActionModel::AcceptMessage,
            ReceiveEventModel::Received(_) => ActionModel::PollCommands,
            _ => ActionModel::EndReceiving,
        }),
        forall|i: int|
            0 <= i < reaction(event).len() - 1 ==> !((#[trigger] reaction(event)[i]) is AcceptMessage
                || reaction(event)[i] is PollCommands || reaction(event)[i] is EndReceiving),
{
}

/// The receiving loop meets an event only when it has asked for one of its kind: a
/// message or the end of the connection when it waits for a message, and an
/// answer about commands when it looks for one.
pub open spec fn answers(event: ReceiveEventModel, action: ActionModel) -> bool {
    match action {
        ActionModel::AcceptMessage => event is Received || event is Closed,
        ActionModel::PollCommands => event is NoCommand || event is Command
            || event is CommandsGone,
        _ => false,
    }
}

/// These are events that one receiving loop can meet, from its start: it begins by
/// looking for a command, and each event answers the last thing that the loop did
/// on the one before.
pub open spec fn is_listening(events: Seq<ReceiveEventModel>) -> bool {
    &&& events.len() > 0 ==> answers(events[0], ActionModel::PollCommands)
    &&& forall|i: int, j: int|
        0 <= i && j == i + 1 && j < events.len() ==> answers(
            #[trigger] events[j],
            reaction(#[trigger] events[i]).last(),
        )
}

/// The events that the receiving loop meets among the steps.
pub open spec fn events_of(steps: Seq<Step>) -> Seq<ReceiveEventModel>
    decreases steps.len(),
{
    if steps.len() == 0 {
        seq![]
    } else {
        match steps.last() {
            Step::Receive(event) => events_of(steps.drop_last()).push(event),
            _ => events_of(steps.drop_last()),
        }
    }
}

/// The messages that events bring for the user.
pub open spec fn all_queued(events: Seq<ReceiveEventModel>) -> Seq<MessageModel>
    decreases events.len(),
{
    if events.len() == 0 {
        seq![]
    } else {
        all_queued(events.drop_last()) + queued(events.last())
    }
}

/// A receiving loop that has ended handles nothing more: every event but the last
/// finds no command, or is a message.
pub proof fn law_nothing_follows_the_end(events: Seq<ReceiveEventModel>)
    requires
        is_listening(events),
    ensures
        forall|i: int|
            0 <= i < events.len() - 1 ==> (#[trigger] events[i]) is NoCommand || events[i] is Received,
        forall|i: int|
            0 <= i < events.len() && reaction(#[trigger] events[i]).last() is EndReceiving ==> i
                == events.len() - 1,
{
    assert forall|i: int| 0 <= i < events.len() - 1 implies (#[trigger] events[i]) is NoCommand
        || events[i] is Received by {
        law_receiving_goes_on_until_told(events[i]);
        assert(answers(events[i + 1], reaction(events[i]).last()));
    }
    assert forall|i: int|
        0 <= i < events.len() && reaction(#[trigger] events[i]).last() is EndReceiving implies i
        == events.len() - 1 by {
        law_receiving_goes_on_until_told(events[i]);
    }
}

/// A receiving loop looks for a command before every message: its events answer by
/// turns about commands and about messages.
pub proof fn law_commands_come_before_messages(events: Seq<ReceiveEventModel>, i: int)
    requires
        is_listening(events),
        0 <= i < events.len(),
    ensures
        answers(
            events[i],
            if i % 2 == 0 {
                ActionModel::PollCommands
            } else {
                ActionModel::AcceptMessage
            },
        ),
    decreases i,
{
    if i > 0 {
        law_commands_come_before_messages(events, i - 1);
        law_receiving_goes_on_until_told(events[i - 1]);
        assert(answers(events[i], reaction(events[i - 1]).last()));
    }
}

/// However a client is used while one receiving loop runs, the end of the connection
/// comes at most once, and its `Disconnect` is the last message that arrives, after
/// all that the events before it bring.
pub proof fn law_closure_is_told_once_and_last(steps: Seq<Step>)
    requires
        is_listening(events_of(steps)),
    ensures
        ({
            let events = events_of(steps);
            &&& forall|i: int|
                0 <= i < events.len() && (#[trigger] events[i]) is Closed ==> i == events.len() - 1
            &&& events.len() > 0 && events.last() is Closed ==> arrived(steps) == all_queued(
                events.drop_last(),
            ).push(MessageModel::Disconnect)
        }),
{
    let events = events_of(steps);
    law_nothing_follows_the_end(events);
    lemma_arrived_is_what_events_queue(steps);
    if events.len() > 0 && events.last() is Closed {
        assert(arrived(steps) =~= all_queued(events.drop_last()).push(MessageModel::Disconnect));
    }
}

proof fn lemma_arrived_is_what_events_queue(steps: Seq<Step>)
    ensures
        arrived(steps) == all_queued(events_of(steps)),
    decreases steps.len(),
{
    if steps.len() > 0 {
        lemma_arrived_is_what_events_queue(steps.drop_last());
        match steps.last() {
            Step::Receive(event) => {
                assert(events_of(steps).drop_last() =~= events_of(steps.drop_last()));
            },
            _ => {
                assert(arrived(steps) =~= arrived(steps.drop_last()));
            },
        }
    }
}

/// The receiving loop sends only on a login: one message, which is not a request
/// of the user's.
pub proof fn law_only_a_login_is_answered(event: ReceiveEventModel, i: int)
    requires
        0 <= i < reaction(event).len(),
        reaction(event)[i] is Send,
    ensures
        event is Received,
        event->Received_0 is LoginSuccess,
        i == 0,
{
}

/// However the connection ends, the user is told so by one `Disconnect`, after all
/// that has come before.
pub proof fn law_closure_shows_as_disconnect(client: ClientModel, event: ReceiveEventModel)
    requires
        event is Closed,
    ensures
        client.received(event).messages == client.messages.push(MessageModel::Disconnect),
        client.received(event).user == client.user,
{
    assert(client.received(event).messages =~= client.messages.push(MessageModel::Disconnect));
}

/// Audio reaches the audio manager, under the id of who speaks, and leaves the
/// client as it was.
pub proof fn law_audio_leaves_no_trace(client: ClientModel, event: ReceiveEventModel)
    requires
        event is Received,
        event->Received_0 is Audio,
    ensures
        client.received(event) == client,
        reaction(event)[0] == ActionModel::PlayAudio(
            event->Received_0->Audio_0.user_id,
            event->Received_0->Audio_1,
        ),
{
    assert(client.received(event).messages =~= client.messages);
}

/// A client that has left the server does not tell its receiving loop to stop a
/// second time, unless it has been started again.
pub proof fn law_receiving_is_stopped_once(client: ClientModel, steps: Seq<Step>)
    requires
        forall|i: int| 0 <= i < steps.len() ==> !((#[trigger] steps[i]) is Start),
    ensures
        !run(client.disconnected(), steps).disconnecting().contains(ActionModel::StopReceiving),
{
    lemma_stopped_stays_stopped(client.disconnected(), steps);
}

proof fn lemma_stopped_stays_stopped(client: ClientModel, steps: Seq<Step>)
    requires
        !client.can_stop_receiving,
        forall|i: int| 0 <= i < steps.len() ==> !((#[trigger] steps[i]) is Start),
    ensures
        !run(client, steps).can_stop_receiving,
    decreases steps.len(),
{
    if steps.len() > 0 {
        assert forall|i: int| 0 <= i < steps.drop_last().len() implies !((
        #[trigger] steps.drop_last()[i]) is Start) by {
            assert(steps.drop_last()[i] == steps[i]);
        }
        lemma_stopped_stays_stopped(client, steps.drop_last());
        assert(!(steps[steps.len() - 1] is Start));
    }
}

/// A client that leaves says so to the server first, if it is logged in, and always
/// closes the connection before it waits for that.
pub proof fn law_leaving_is_announced(client: ClientModel)
    requires
        client.wf(),
    ensures
        ({
            let actions = client.disconnecting();
            let close = ActionModel::Close { code: 0, reason: "done"@ };
            if client.is_logged_in {
                &&& actions[0] == ActionModel::Send(
                    MessageModel::Disconnecting(client.user->0.id),
                )
                &&& actions[1] == close
                &&& actions[2] == ActionModel::AwaitClosed
            } else {
                &&& actions[0] == close
                &&& actions[1] == ActionModel::AwaitClosed
            }
        }),
{
}

/// A client that has been started and is then told to leave stops its receiving
/// loop, as the last thing it does.
pub proof fn law_leaving_stops_receiving(client: ClientModel)
    ensures
        client.started().disconnecting().last() == ActionModel::StopReceiving,
{
}

} // verus!
