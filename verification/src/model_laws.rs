//! The models leave nothing out: each shows, part by part, what it is a model of.

use crate::client::{
    actions_model, Action, ActionModel, Closure, ClosureModel, ConnectionCommand, ReceiveEvent,
    ReceiveEventModel,
};
use crate::layout::Area;
use crate::message::{
    chunks_model, messages_model, optional_message_model, ChannelType, Message, MessageHeader,
    MessageModel, MessageType, RealmDescription, User,
};
use crate::personal::{
    draws_model, Alignment, App, Draw, Pane, Style, Title, TitleModel, Widget, WidgetModel,
};
use vstd::prelude::*;

verus! {

/// The model of chunks of text has each chunk in its place, with its text and whom it
/// mentions.
pub proof fn law_chunks_are_shown(chunks: Seq<(String, Option<u64>)>)
    ensures
        chunks_model(chunks).len() == chunks.len(),
        forall|i: int|
            0 <= i < chunks.len() ==> (#[trigger] chunks_model(chunks)[i]).0 == chunks[i].0@
                && chunks_model(chunks)[i].1 == chunks[i].1,
{
}

/// The models of messages stand in the order of the messages, one for each.
pub proof fn law_messages_are_shown(messages: Seq<Message>)
    ensures
        messages_model(messages).len() == messages.len(),
        forall|i: int|
            0 <= i < messages.len() ==> #[trigger] messages_model(messages)[i]
                == messages[i].message@,
{
}

/// A message that may be missing is missing in its model exactly when it is.
pub proof fn law_missing_messages_are_shown(message: Option<Message>)
    ensures
        message is None <==> optional_message_model(message) is None,
        message matches Some(message) ==> optional_message_model(Some(message)) == Some(
            message.message@,
        ),
{
}

/// A message made of contents holds these contents.
pub proof fn law_messages_hold_their_contents(contents: MessageType)
    ensures
        <Message as vstd::std_specs::convert::FromSpec<MessageType>>::from_spec(contents).message
            == contents,
        <Message as vstd::std_specs::convert::FromSpec<MessageType>>::obeys_from_spec(),
{
}

/// The models of messages that say something in a channel have the header and the
/// contents of the message.
pub proof fn law_channel_messages_are_shown(
    header: MessageHeader,
    id: u64,
    chunks: Vec<(String, Option<u64>)>,
    bytes: Vec<u8>,
)
    ensures
        MessageType::Text((header, chunks))@ == MessageModel::Text(header, chunks_model(chunks@)),
        MessageType::Reply((header, id, chunks))@ == MessageModel::Reply(
            header,
            id,
            chunks_model(chunks@),
        ),
        MessageType::Image((header, bytes))@ == MessageModel::Image(header, bytes@),
        MessageType::Audio((header, bytes))@ == MessageModel::Audio(header, bytes@),
        MessageType::Typing(header)@ == MessageModel::Typing(header),
        MessageType::UserJoinedVoiceChannel(header)@ == MessageModel::UserJoinedVoiceChannel(
            header,
        ),
        MessageType::UserLeftVoiceChannel(header)@ == MessageModel::UserLeftVoiceChannel(header),
{
}

/// The models of messages about channels, realms and friends have the header, the
/// ids, the kind and the name of the message.
pub proof fn law_management_messages_are_shown(
    header: MessageHeader,
    kind: ChannelType,
    id: u64,
    name: String,
)
    ensures
        MessageType::JoinChannel((header, kind))@ == MessageModel::JoinChannel(header, kind),
        MessageType::AddChannel((header, kind, name))@ == MessageModel::AddChannel(
            header,
            kind,
            name@,
        ),
        MessageType::RemoveChannel((header, kind))@ == MessageModel::RemoveChannel(header, kind),
        MessageType::AddRealm((header, name))@ == MessageModel::AddRealm(header, name@),
        MessageType::RemoveRealm((header, id))@ == MessageModel::RemoveRealm(header, id),
        MessageType::NewFriendRequest((header, id))@ == MessageModel::NewFriendRequest(header, id),
        MessageType::RemoveFriend((header, id))@ == MessageModel::RemoveFriend(header, id),
{
}

/// The models of messages about a session have the name, the user, the id and the bytes
/// of the message.
pub proof fn law_session_messages_are_shown(name: String, user: User, id: u64, bytes: Vec<u8>)
    ensures
        MessageType::LoginAttempt(name)@ == MessageModel::LoginAttempt(name@),
        MessageType::LoginSuccess(user)@ == MessageModel::LoginSuccess(user@),
        MessageType::GetRealms(id)@ == MessageModel::GetRealms(id),
        MessageType::Disconnecting(id)@ == MessageModel::Disconnecting(id),
        MessageType::Disconnect@ == MessageModel::Disconnect,
        MessageType::Other(bytes)@ == MessageModel::Other(bytes@),
{
}

/// The model of a realm has its id and its name.
pub proof fn law_realms_are_shown(realm: RealmDescription)
    ensures
        realm@.id == realm.id,
        realm@.name == realm.name@,
{
}

/// The model of an event is of its kind, and has what comes with the event.
pub proof fn law_events_are_shown(
    command: ConnectionCommand,
    message: Message,
    closure: Closure,
    code: u64,
    reason: Vec<u8>,
)
    ensures
        ReceiveEvent::NoCommand@ == ReceiveEventModel::NoCommand,
        ReceiveEvent::Command(command)@ == ReceiveEventModel::Command(command),
        ReceiveEvent::CommandsGone@ == ReceiveEventModel::CommandsGone,
        ReceiveEvent::Received(message)@ == ReceiveEventModel::Received(message.message@),
        ReceiveEvent::Closed(closure)@ == ReceiveEventModel::Closed(closure@),
        (Closure::ApplicationClosed { code, reason })@ == (ClosureModel::ApplicationClosed {
            code,
            reason: reason@,
        }),
        Closure::LocallyClosed@ == ClosureModel::LocallyClosed,
        Closure::Failed@ == ClosureModel::Failed,
{
}

/// The models of actions stand in the order of the actions, one for each.
pub proof fn law_action_lists_are_shown(actions: Seq<Action>)
    ensures
        actions_model(actions).len() == actions.len(),
        forall|i: int|
            0 <= i < actions.len() ==> #[trigger] actions_model(actions)[i] == actions[i]@,
{
}

/// The model of an action is of its kind, and has what the action is about.
pub proof fn law_actions_are_shown(
    message: Message,
    code: u32,
    text: String,
    id: u64,
    audio: Vec<u8>,
    header: MessageHeader,
)
    ensures
        Action::Send(message)@ == ActionModel::Send(message.message@),
        Action::StartReceiving@ == ActionModel::StartReceiving,
        Action::StopReceiving@ == ActionModel::StopReceiving,
        Action::PollCommands@ == ActionModel::PollCommands,
        Action::AcceptMessage@ == ActionModel::AcceptMessage,
        Action::EndReceiving@ == ActionModel::EndReceiving,
        (Action::Close { code, reason: text })@ == (ActionModel::Close { code, reason: text@ }),
        Action::AwaitClosed@ == ActionModel::AwaitClosed,
        Action::PlayAudio(id, audio)@ == ActionModel::PlayAudio(id, audio@),
        Action::SetAudioUser(id)@ == ActionModel::SetAudioUser(id),
        Action::StartRecording(header)@ == ActionModel::StartRecording(header),
        Action::StartListening@ == ActionModel::StartListening,
        Action::StopAudio@ == ActionModel::StopAudio,
        Action::Print(text)@ == ActionModel::Print(text@),
        Action::PrintError(text)@ == ActionModel::PrintError(text@),
{
}

/// The model of what the screen shows has every realm in its place, the focus, the
/// state of the voice connection and the time.
pub proof fn law_apps_are_shown(app: App)
    ensures
        app@.realms.len() == app.realms@.len(),
        forall|i: int|
            0 <= i < app.realms@.len() ==> (#[trigger] app@.realms[i]).0 == app.realms@[i].0
                && app@.realms[i].1 == app.realms@[i].1@,
        app@.current_pane == app.current_pane,
        app@.is_voice_connected == app.is_voice_connected,
        app@.current_time == app.current_time@,
{
}

/// The model of a title has its text, or its pane and whether that has the focus.
pub proof fn law_titles_are_shown(text: String, pane: Pane, focused: bool)
    ensures
        Title::Untitled@ == TitleModel::Untitled,
        Title::Text(text)@ == TitleModel::Text(text@),
        (Title::Pane { pane, focused })@ == (TitleModel::Pane { pane, focused }),
{
}

/// The model of a label or of a panel has its text and its look.
pub proof fn law_texts_are_shown(text: String, style: Style, alignment: Alignment, title: Title)
    ensures
        (Widget::Label { text, style, alignment })@ == (WidgetModel::Label {
            text: text@,
            style,
            alignment,
        }),
        (Widget::Panel { text, title })@ == (WidgetModel::Panel { text: text@, title: title@ }),
{
}

/// The model of a list has its items in their order and its look.
pub proof fn law_lists_are_shown(
    items: Vec<String>,
    item_style: Style,
    title: Title,
    highlight_style: Style,
    highlight_symbol: String,
)
    ensures
        ({
            let list = Widget::List { items, item_style, title, highlight_style, highlight_symbol };
            &&& list@ is List
            &&& list@->items.len() == items@.len()
            &&& forall|i: int|
                0 <= i < items@.len() ==> (#[trigger] list@->items[i]) == items@[i]@
            &&& list@->item_style == item_style
            &&& list@->List_title == title@
            &&& list@->highlight_style == highlight_style
            &&& list@->highlight_symbol == highlight_symbol@
        }),
{
}

/// The models of things to draw stand in their order, one for each, with the area and
/// what stands in it.
pub proof fn law_draws_are_shown(draws: Seq<Draw>, area: Area, widget: Widget)
    ensures
        draws_model(draws).len() == draws.len(),
        forall|i: int| 0 <= i < draws.len() ==> #[trigger] draws_model(draws)[i] == draws[i]@,
        (Draw { area, widget })@.area == area,
        (Draw { area, widget })@.widget == widget@,
{
}

} // verus!
