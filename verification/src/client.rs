//! The state of a client's session, and what the client does with it.
//!
//! A method that in a running program has effects returns them: a message that
//! is to be sent to the server, or the actions to be performed, in order.

use crate::decimal::{decimal, push_decimal, socket_address, socket_address_model};
use crate::drain::{drain_back, drain_front};
use crate::message::{
    chunks_model, messages_model, optional_message_model, ChannelIdSize, ChannelType, Message, MessageHeader,
    MessageIdSize, MessageModel, MessageType, RealmDescription, RealmIdSize, RealmModel, User,
    UserIdSize, UserModel,
};
use crate::request::{header, request_message, Request};
use std::collections::VecDeque;
use vstd::prelude::*;
use vstd::utf8::{decode_utf8, valid_utf8};

verus! {

/// The most bytes that one incoming message may have.
pub const MAX_MESSAGE_BYTES: usize = 12000000;

/// How many commands, or pieces of audio, may wait between two tasks.
pub const CHANNEL_CAPACITY: usize = 1000;

/// The exit code of a program that could not connect.
pub const CONNECT_FAILURE_EXIT_CODE: i32 = 1;

/// What may go wrong with a request.
#[derive(Debug)]
pub enum ClientError {
    NotLoggedIn,
    FailedToJoinChannel,
}

/// What the audio of a client may be told.
pub enum AudioCommand {
    Start,
    Stop,
    Mute,
    Unmute,
}

/// What the receiving loop may be told.
#[derive(Debug, Clone, Copy, PartialEq, Eq, Structural)]
pub enum ConnectionCommand {
    StopReceiving,
}

/// Why a connection could not be made.
#[derive(Debug)]
pub enum ConnectFailure {
    TimedOut,
    /// Any other reason, in words.
    Other(String),
}

impl ConnectFailure {
    /// The line that tells the user about the failure.
    pub fn report(&self) -> (line: String)
        ensures
            line@ == (match *self {
                ConnectFailure::TimedOut =>
                    "[client] Connection timed out. Is the server IP and port correct?"@,
                ConnectFailure::Other(reason) => "[client] Error while connecting: "@ + reason@,
            }),
    {
        match self {
            ConnectFailure::TimedOut => String::from_str(
                "[client] Connection timed out. Is the server IP and port correct?",
            ),
            ConnectFailure::Other(reason) => {
                let mut line = String::from_str("[client] Error while connecting: ");
                line.append(reason.as_str());
                line
            },
        }
    }
}

/// How a connection came to its end.
#[derive(Debug)]
pub enum Closure {
    /// The server closed it, for a reason that is text in UTF-8.
    ApplicationClosed { code: u64, reason: Vec<u8> },
    /// This client closed it.
    LocallyClosed,
    /// Anything else.
    Failed,
}

/// The model of a `Closure`.
pub enum ClosureModel {
    ApplicationClosed { code: u64, reason: Seq<u8> },
    LocallyClosed,
    Failed,
}

impl View for Closure {
    type V = ClosureModel;

    open spec fn view(&self) -> ClosureModel {
        match *self {
            Closure::ApplicationClosed { code, reason } => ClosureModel::ApplicationClosed {
                code,
                reason: reason@,
            },
            Closure::LocallyClosed => ClosureModel::LocallyClosed,
            Closure::Failed => ClosureModel::Failed,
        }
    }
}

/// What the receiving loop meets.
///
/// Each round of the loop looks for a command first and, unless one ends the
/// loop, waits for the next message.
#[derive(Debug)]
pub enum ReceiveEvent {
    /// No command is waiting.
    NoCommand,
    /// A command has come.
    Command(ConnectionCommand),
    /// No command can come any more: nobody holds the sending end.
    CommandsGone,
    /// The server has sent a message.
    Received(Message),
    /// The connection has ended.
    Closed(Closure),
}

/// The model of a `ReceiveEvent`.
pub enum ReceiveEventModel {
    NoCommand,
    Command(ConnectionCommand),
    CommandsGone,
    Received(MessageModel),
    Closed(ClosureModel),
}

impl View for ReceiveEvent {
    type V = ReceiveEventModel;

    open spec fn view(&self) -> ReceiveEventModel {
        match *self {
            ReceiveEvent::NoCommand => ReceiveEventModel::NoCommand,
            ReceiveEvent::Command(command) => ReceiveEventModel::Command(command),
            ReceiveEvent::CommandsGone => ReceiveEventModel::CommandsGone,
            ReceiveEvent::Received(message) => ReceiveEventModel::Received(message@),
            ReceiveEvent::Closed(closure) => ReceiveEventModel::Closed(closure@),
        }
    }
}

impl ReceiveEventModel {
    /// The reason that comes with the event, if one does, is text.
    pub open spec fn is_readable(self) -> bool {
        match self {
            ReceiveEventModel::Closed(
                ClosureModel::ApplicationClosed { code: _, reason },
            ) => valid_utf8(reason),
            _ => true,
        }
    }
}

/// What a client has done for it.
#[derive(Debug, PartialEq, Eq)]
pub enum Action {
    /// Send a message to the server.
    Send(Message),
    /// Make a channel for commands to the receiving loop, keep its sending end in
    /// place of an earlier one, and start the loop.
    StartReceiving,
    /// Send the receiving loop its command to stop, and let go of the sending end.
    StopReceiving,
    /// Look for a command: the loop goes round.
    PollCommands,
    /// Wait for the next message.
    AcceptMessage,
    /// End the loop.
    EndReceiving,
    /// Close the connection with a code and a reason.
    Close { code: u32, reason: String },
    /// Wait until the connection is closed.
    AwaitClosed,
    /// Hand audio of a user to the audio manager.
    PlayAudio(UserIdSize, Vec<u8>),
    /// Tell the audio manager who is speaking.
    SetAudioUser(UserIdSize),
    /// Have the audio manager record and broadcast.
    StartRecording(MessageHeader),
    /// Have the audio manager play what comes in.
    StartListening,
    /// Have the audio manager disconnect.
    StopAudio,
    /// Write a line to the standard output.
    Print(String),
    /// Write a line to the standard error.
    PrintError(String),
}

/// The model of an `Action`.
pub enum ActionModel {
    Send(MessageModel),
    StartReceiving,
    StopReceiving,
    PollCommands,
    AcceptMessage,
    EndReceiving,
    Close { code: u32, reason: Seq<char> },
    AwaitClosed,
    PlayAudio(UserIdSize, Seq<u8>),
    SetAudioUser(UserIdSize),
    StartRecording(MessageHeader),
    StartListening,
    StopAudio,
    Print(Seq<char>),
    PrintError(Seq<char>),
}

impl View for Action {
    type V = ActionModel;

    open spec fn view(&self) -> ActionModel {
        match *self {
            Action::Send(message) => ActionModel::Send(message@),
            Action::StartReceiving => ActionModel::StartReceiving,
            Action::StopReceiving => ActionModel::StopReceiving,
            Action::PollCommands => ActionModel::PollCommands,
            Action::AcceptMessage => ActionModel::AcceptMessage,
            Action::EndReceiving => ActionModel::EndReceiving,
            Action::Close { code, reason } => ActionModel::Close { code, reason: reason@ },
            Action::AwaitClosed => ActionModel::AwaitClosed,
            Action::PlayAudio(user_id, audio) => ActionModel::PlayAudio(user_id, audio@),
            Action::SetAudioUser(user_id) => ActionModel::SetAudioUser(user_id),
            Action::StartRecording(header) => ActionModel::StartRecording(header),
            Action::StartListening => ActionModel::StartListening,
            Action::StopAudio => ActionModel::StopAudio,
            Action::Print(line) => ActionModel::Print(line@),
            Action::PrintError(line) => ActionModel::PrintError(line@),
        }
    }
}

/// The models of a sequence of actions.
pub open spec fn actions_model(actions: Seq<Action>) -> Seq<ActionModel> {
    actions.map_values(|action: Action| action@)
}

/// The line that reports that the server closed the connection.
pub open spec fn closed_line(code: u64, reason: Seq<char>) -> Seq<char> {
    "Connection closed. Code: "@ + decimal(code as nat) + ", Reason: "@ + reason
}

/// What the receiving loop does on an event.
pub open spec fn reaction(event: ReceiveEventModel) -> Seq<ActionModel> {
    match event {
        ReceiveEventModel::NoCommand => seq![ActionModel::AcceptMessage],
        ReceiveEventModel::Command(ConnectionCommand::StopReceiving) => seq![
            ActionModel::EndReceiving,
        ],
        ReceiveEventModel::CommandsGone => seq![
            ActionModel::PrintError("No sender available to receive from"@),
            ActionModel::EndReceiving,
        ],
        ReceiveEventModel::Received(message) => match message {
            MessageModel::LoginSuccess(user) => seq![
                ActionModel::Send(MessageModel::GetRealms(user.id)),
                ActionModel::PollCommands,
            ],
            MessageModel::Audio(header, audio) => seq![
                ActionModel::PlayAudio(header.user_id, audio),
                ActionModel::PollCommands,
            ],
            _ => seq![ActionModel::PollCommands],
        },
        ReceiveEventModel::Closed(closure) => match closure {
            ClosureModel::ApplicationClosed { code, reason } => seq![
                ActionModel::Print(closed_line(code, decode_utf8(reason))),
                ActionModel::EndReceiving,
            ],
            ClosureModel::LocallyClosed => seq![ActionModel::EndReceiving],
            ClosureModel::Failed => seq![
                ActionModel::PrintError("[client] unhandled stream error"@),
                ActionModel::EndReceiving,
            ],
        },
    }
}

/// What an event adds to the messages that wait for the user.
///
/// A login and audio are dealt with at once; every other message waits. The end
/// of the connection shows as a `Disconnect`.
pub open spec fn queued(event: ReceiveEventModel) -> Seq<MessageModel> {
    match event {
        ReceiveEventModel::Received(message) => match message {
            MessageModel::LoginSuccess(_) => seq![],
            MessageModel::Audio(_, _) => seq![],
            _ => seq![message],
        },
        ReceiveEventModel::Closed(_) => seq![MessageModel::Disconnect],
        _ => seq![],
    }
}

/// The model of a `Client`.
pub struct ClientModel {
    /// The socket address of the server.
    pub address: Seq<char>,
    /// The name to log in under.
    pub username: Seq<char>,
    /// The user whom the server has logged in.
    pub user: Option<UserModel>,
    pub is_logged_in: bool,
    /// The messages that wait for the user, oldest first.
    pub messages: Seq<MessageModel>,
    /// The realms that wait for the user.
    pub realms: Seq<RealmModel>,
    /// The receiving loop can be told to stop.
    pub can_stop_receiving: bool,
}

impl ClientModel {
    /// A client that has just been made.
    pub open spec fn initial(address: Seq<char>, username: Seq<char>) -> ClientModel {
        ClientModel {
            address,
            username,
            user: None,
            is_logged_in: false,
            messages: seq![],
            realms: seq![],
            can_stop_receiving: false,
        }
    }

    /// The client is logged in exactly when the server has told it who it is.
    pub open spec fn wf(self) -> bool {
        self.is_logged_in <==> self.user is Some
    }

    /// The id of the user, once the server has told it.
    pub open spec fn user_id(self) -> Option<UserIdSize> {
        match self.user {
            Some(user) => Some(user.id),
            None => None,
        }
    }

    /// What the client sends on a request: nothing as long as it has no user.
    pub open spec fn outgoing(self, request: Request) -> Option<MessageModel> {
        match self.user {
            Some(user) => Some(request_message(user.id, request)),
            None => None,
        }
    }

    /// The sending of a request, as actions.
    pub open spec fn sending(self, request: Request) -> Seq<ActionModel> {
        match self.outgoing(request) {
            Some(message) => seq![ActionModel::Send(message)],
            None => seq![],
        }
    }

    /// The client once its receiving loop has been started.
    pub open spec fn started(self) -> ClientModel {
        ClientModel { can_stop_receiving: true, ..self }
    }

    /// The client after an event of the receiving loop.
    pub open spec fn received(self, event: ReceiveEventModel) -> ClientModel {
        match event {
            ReceiveEventModel::Received(MessageModel::LoginSuccess(user)) => ClientModel {
                user: Some(user),
                is_logged_in: true,
                ..self
            },
            _ => ClientModel { messages: self.messages + queued(event), ..self },
        }
    }

    /// The client after the waiting messages have been taken.
    pub open spec fn without_messages(self) -> ClientModel {
        ClientModel { messages: seq![], ..self }
    }

    /// The client after the waiting realms have been taken.
    pub open spec fn without_realms(self) -> ClientModel {
        ClientModel { realms: seq![], ..self }
    }

    /// What a client does to start: it receives before it asks to be logged in.
    pub open spec fn starting(self) -> Seq<ActionModel> {
        seq![
            ActionModel::StartReceiving,
            ActionModel::Send(MessageModel::LoginAttempt(self.username)),
        ]
    }

    /// What a client does to leave a voice channel.
    pub open spec fn hanging_up(
        self,
        realm_id: RealmIdSize,
        channel_id: ChannelIdSize,
    ) -> Seq<ActionModel> {
        match self.outgoing(Request::HangUp { realm_id, channel_id }) {
            Some(message) => seq![ActionModel::Send(message), ActionModel::StopAudio],
            None => seq![],
        }
    }

    /// What a client does to speak in a voice channel.
    pub open spec fn connecting_voice(
        self,
        realm_id: RealmIdSize,
        channel_id: ChannelIdSize,
    ) -> Seq<ActionModel> {
        match self.user {
            Some(user) => seq![
                ActionModel::SetAudioUser(user.id),
                ActionModel::StartRecording(header(user.id, realm_id, channel_id)),
                ActionModel::StartListening,
            ],
            None => seq![],
        }
    }

    /// What a client does to leave the server.
    pub open spec fn disconnecting(self) -> Seq<ActionModel> {
        self.sending(Request::Disconnect) + seq![
            ActionModel::Close { code: 0, reason: "done"@ },
            ActionModel::AwaitClosed,
        ] + if self.can_stop_receiving {
            seq![ActionModel::StopReceiving]
        } else {
            seq![]
        }
    }

    /// The client once it has left the server.
    pub open spec fn disconnected(self) -> ClientModel {
        ClientModel { can_stop_receiving: false, ..self }
    }
}

/// `String::from_utf8` makes a string of bytes exactly when they are valid UTF-8,
/// and the string is the text that they encode.
#[verifier::external_body]
fn text_from_utf8(bytes: Vec<u8>) -> (text: Option<String>)
    ensures
        text is Some <==> valid_utf8(bytes@),
        text matches Some(text) ==> text@ == decode_utf8(bytes@),
{
    String::from_utf8(bytes).ok()
}

/// The session of one client with one server.
#[derive(Debug)]
pub struct Client {
    address: String,
    username: String,
    // A client has no user before the server has logged it in.
    user: Option<User>,
    is_logged_in: bool,
    messages: VecDeque<Message>,
    realms: Vec<RealmDescription>,
    can_stop_receiving: bool,
}

impl View for Client {
    type V = ClientModel;

    closed spec fn view(&self) -> ClientModel {
        ClientModel {
            address: self.address@,
            username: self.username@,
            user: match self.user {
                Some(user) => Some(user@),
                None => None,
            },
            is_logged_in: self.is_logged_in,
            messages: messages_model(self.messages@),
            realms: self.realms@.map_values(|realm: RealmDescription| realm@),
            can_stop_receiving: self.can_stop_receiving,
        }
    }
}

impl Client {
    /// A client of the server at an address and port, that will log in under
    /// `username`.
    pub fn new(server_address: String, server_port: u16, username: String) -> (client: Client)
        ensures
            client@ == ClientModel::initial(
                socket_address_model(server_address@, server_port as nat),
                username@,
            ),
            client@.wf(),
    {
        let client = Client {
            address: socket_address(server_address, server_port),
            username,
            user: None,
            is_logged_in: false,
            messages: VecDeque::new(),
            realms: Vec::new(),
            can_stop_receiving: false,
        };
        assert(client@.messages =~= seq![]);
        assert(client@.realms =~= seq![]);
        client
    }

    /// The socket address of the server.
    pub fn address(&self) -> (address: &str)
        ensures
            address@ == self@.address,
    {
        self.address.as_str()
    }

    /// Takes the waiting messages, oldest first.
    pub fn get_new_messages(&mut self) -> (messages: Vec<Message>)
        ensures
            messages_model(messages@) == old(self)@.messages,
            final(self)@ == old(self)@.without_messages(),
            old(self)@.wf() ==> final(self)@.wf(),
    {
        let messages = drain_front(&mut self.messages);
        assert(self@.messages =~= seq![]);
        messages
    }

    /// Starts the receiving loop, then asks the server to log the user in.
    pub fn run_client(&mut self) -> (actions: Vec<Action>)
        ensures
            actions_model(actions@) == old(self)@.starting(),
            final(self)@ == old(self)@.started(),
            old(self)@.wf() ==> final(self)@.wf(),
    {
        self.can_stop_receiving = true;
        let mut actions: Vec<Action> = Vec::new();
        actions.push(Action::StartReceiving);
        actions.push(Action::Send(self.login(self.username.clone())));
        assert(actions_model(actions@) =~= old(self)@.starting());
        actions
    }

    /// The message that asks the server to log the user in.
    fn login(&self, username: String) -> (message: Message)
        ensures
            message@ == MessageModel::LoginAttempt(username@),
    {
        Message::from(MessageType::LoginAttempt(username))
    }

    /// Takes the waiting realms, newest first.
    pub fn get_realms(&mut self) -> (realms: Vec<RealmDescription>)
        ensures
            realms@.map_values(|realm: RealmDescription| realm@) == old(self)@.realms.reverse(),
            final(self)@ == old(self)@.without_realms(),
            old(self)@.wf() ==> final(self)@.wf(),
    {
        let realms = drain_back(&mut self.realms);
        assert(realms@.map_values(|realm: RealmDescription| realm@) =~= old(
            self,
        )@.realms.reverse());
        assert(self@.realms =~= seq![]);
        realms
    }

    /// The id of the user, once logged in.
    pub fn get_user_id(&self) -> (id: Option<UserIdSize>)
        ensures
            id == self@.user_id(),
    {
        match &self.user {
            Some(user) => Some(user.get_id()),
            None => None,
        }
    }

    /// The name of the user, once logged in.
    pub fn get_username(&self) -> (username: Option<String>)
        ensures
            username is Some <==> self@.user is Some,
            username matches Some(username) ==> username@ == self@.user->0.username,
    {
        match &self.user {
            Some(user) => Some(String::from_str(user.get_username())),
            None => None,
        }
    }

    /// Whether the server has logged the user in.
    pub fn is_logged_in(&self) -> (logged_in: bool)
        ensures
            logged_in == self@.is_logged_in,
    {
        self.is_logged_in
    }

    /// One step of the receiving loop: takes in an event and says what to do next.
    pub fn receive_data(&mut self, event: ReceiveEvent) -> (actions: Vec<Action>)
        requires
            event@.is_readable(),
        ensures
            actions_model(actions@) == reaction(event@),
            final(self)@ == old(self)@.received(event@),
            old(self)@.wf() ==> final(self)@.wf(),
    {
        let ghost before = self@;
        let ghost happened = event@;
        let mut actions: Vec<Action> = Vec::new();
        match event {
            ReceiveEvent::NoCommand => {
                actions.push(Action::AcceptMessage);
            },
            ReceiveEvent::Command(ConnectionCommand::StopReceiving) => {
                actions.push(Action::EndReceiving);
            },
            ReceiveEvent::CommandsGone => {
                actions.push(
                    Action::PrintError(String::from_str("No sender available to receive from")),
                );
                actions.push(Action::EndReceiving);
            },
            ReceiveEvent::Received(message) => {
                match message.message {
                    MessageType::LoginSuccess(user) => {
                        let id: UserIdSize = user.get_id();
                        self.user = Some(user);
                        self.is_logged_in = true;
                        // The realms are the first thing that a logged-in user needs.
                        actions.push(Action::Send(Message::from(MessageType::GetRealms(id))));
                    },
                    MessageType::Audio(audio) => {
                        actions.push(Action::PlayAudio(audio.0.user_id, audio.1));
                    },
                    other => {
                        self.messages.push_back(Message::from(other));
                    },
                }
                actions.push(Action::PollCommands);
            },
            ReceiveEvent::Closed(closure) => {
                match closure {
                    Closure::ApplicationClosed { code, reason } => {
                        let mut line = String::from_str("Connection closed. Code: ");
                        push_decimal(&mut line, code);
                        line.append(", Reason: ");
                        if let Some(reason) = text_from_utf8(reason) {
                            line.append(reason.as_str());
                        }
                        actions.push(Action::Print(line));
                    },
                    Closure::LocallyClosed => {},
                    Closure::Failed => {
                        actions.push(
                            Action::PrintError(String::from_str("[client] unhandled stream error")),
                        );
                    },
                }
                self.messages.push_back(Message::from(MessageType::Disconnect));
                actions.push(Action::EndReceiving);
            },
        }
        assert(self@.messages =~= before.received(happened).messages);
        assert(actions_model(actions@) =~= reaction(happened));
        actions
    }

    /// The message that says something in a text channel.
    pub fn send_mention_message(
        &self,
        realm_id: RealmIdSize,
        channel_id: ChannelIdSize,
        message_chunks: Vec<(String, Option<UserIdSize>)>,
    ) -> (message: Option<Message>)
        ensures
            optional_message_model(message) == self@.outgoing(
                Request::Mention { realm_id, channel_id, chunks: chunks_model(message_chunks@) },
            ),
    {
        match self.get_user_id() {
            Some(user_id) => Some(Message::from(MessageType::Text((MessageHeader::new(user_id, realm_id, channel_id), message_chunks)))),
            None => None,
        }
    }

    /// The message that replies to a message of a text channel.
    pub fn send_reply_message(
        &self,
        realm_id: RealmIdSize,
        channel_id: ChannelIdSize,
        message_id: MessageIdSize,
        message_chunks: Vec<(String, Option<UserIdSize>)>,
    ) -> (message: Option<Message>)
        ensures
            optional_message_model(message) == self@.outgoing(
                Request::Reply {
                    realm_id,
                    channel_id,
                    message_id,
                    chunks: chunks_model(message_chunks@),
                },
            ),
    {
        match self.get_user_id() {
            Some(user_id) => Some(Message::from(MessageType::Reply((MessageHeader::new(user_id, realm_id, channel_id), message_id, message_chunks)))),
            None => None,
        }
    }

    /// The message that shows an image in a text channel.
    pub fn send_image(
        &self,
        realm_id: RealmIdSize,
        channel_id: ChannelIdSize,
        image: Vec<u8>,
    ) -> (message: Option<Message>)
        ensures
            optional_message_model(message) == self@.outgoing(
                Request::Image { realm_id, channel_id, image: image@ },
            ),
    {
        match self.get_user_id() {
            Some(user_id) => Some(Message::from(MessageType::Image((MessageHeader::new(user_id, realm_id, channel_id), image)))),
            None => None,
        }
    }

    /// Leaves a voice channel: tells the server, then stops the audio.
    pub fn hang_up(&self, realm_id: &RealmIdSize, channel_id: &ChannelIdSize) -> (actions: Vec<
        Action,
    >)
        ensures
            actions_model(actions@) == self@.hanging_up(*realm_id, *channel_id),
    {
        let mut actions: Vec<Action> = Vec::new();
        if let Some(user_id) = self.get_user_id() {
            let header = MessageHeader::new(user_id, *realm_id, *channel_id);
            actions.push(Action::Send(Message::from(MessageType::UserLeftVoiceChannel(header))));
            actions.push(Action::StopAudio);
        }
        assert(actions_model(actions@) =~= self@.hanging_up(*realm_id, *channel_id));
        actions
    }

    /// The message that joins a channel.
    pub fn join_channel(
        &self,
        realm_id: RealmIdSize,
        channel_type: ChannelType,
        channel_id: ChannelIdSize,
    ) -> (message: Option<Message>)
        ensures
            optional_message_model(message) == self@.outgoing(
                Request::Join { realm_id, channel_type, channel_id },
            ),
    {
        match self.get_user_id() {
            Some(user_id) => {
                let header = MessageHeader::new(user_id, realm_id, channel_id);
                match channel_type {
                    ChannelType::TextChannel => Some(
                        Message::from(MessageType::JoinChannel((header, channel_type))),
                    ),
                    ChannelType::VoiceChannel => Some(
                        Message::from(MessageType::UserJoinedVoiceChannel(header)),
                    ),
                }
            },
            None => None,
        }
    }

    /// Leaves the server: says so to it, closes the connection and, once that is
    /// done, stops the receiving loop.
    pub fn disconnect(&mut self) -> (actions: Vec<Action>)
        ensures
            actions_model(actions@) == old(self)@.disconnecting(),
            final(self)@ == old(self)@.disconnected(),
            old(self)@.wf() ==> final(self)@.wf(),
    {
        let mut actions: Vec<Action> = Vec::new();
        if let Some(user_id) = self.get_user_id() {
            actions.push(Action::Send(Message::from(MessageType::Disconnecting(user_id))));
        }
        actions.push(Action::Close { code: 0, reason: String::from_str("done") });
        actions.push(Action::AwaitClosed);
        if self.can_stop_receiving {
            self.can_stop_receiving = false;
            actions.push(Action::StopReceiving);
        }
        assert(actions_model(actions@) =~= old(self)@.disconnecting());
        actions
    }

    /// Speaks and listens in a voice channel.
    pub fn connect_voice(&self, realm_id: RealmIdSize, channel_id: ChannelIdSize) -> (actions: Vec<
        Action,
    >)
        ensures
            actions_model(actions@) == self@.connecting_voice(realm_id, channel_id),
    {
        let mut actions: Vec<Action> = Vec::new();
        if let Some(user_id) = self.get_user_id() {
            let header = MessageHeader::new(user_id, realm_id, channel_id);
            // The manager knows its user before it records anything.
            actions.push(Action::SetAudioUser(user_id));
            actions.push(Action::StartRecording(header));
            actions.push(Action::StartListening);
        }
        assert(actions_model(actions@) =~= self@.connecting_voice(realm_id, channel_id));
        actions
    }

    /// The message that adds a channel to a realm.
    pub fn add_channel(
        &self,
        realm_id: RealmIdSize,
        channel_type: ChannelType,
        channel_name: String,
    ) -> (message: Option<Message>)
        ensures
            optional_message_model(message) == self@.outgoing(
                Request::AddChannel { realm_id, channel_type, channel_name: channel_name@ },
            ),
    {
        match self.get_user_id() {
            Some(user_id) => Some(Message::from(MessageType::AddChannel((MessageHeader::new(user_id, realm_id, 0), channel_type, channel_name)))),
            None => None,
        }
    }

    /// The message that removes a channel from a realm.
    pub fn remove_channel(
        &self,
        realm_id: RealmIdSize,
        channel_type: ChannelType,
        channel_id: ChannelIdSize,
    ) -> (message: Option<Message>)
        ensures
            optional_message_model(message) == self@.outgoing(
                Request::RemoveChannel { realm_id, channel_type, channel_id },
            ),
    {
        match self.get_user_id() {
            Some(user_id) => Some(Message::from(MessageType::RemoveChannel((MessageHeader::new(user_id, realm_id, channel_id), channel_type)))),
            None => None,
        }
    }

    /// The message that adds a realm.
    pub fn add_realm(
        &self,
        realm_name: String,
    ) -> (message: Option<Message>)
        ensures
            optional_message_model(message) == self@.outgoing(Request::AddRealm { realm_name: realm_name@ }),
    {
        match self.get_user_id() {
            Some(user_id) => Some(Message::from(MessageType::AddRealm((MessageHeader::new(user_id, 0, 0), realm_name)))),
            None => None,
        }
    }

    /// The message that removes a realm.
    pub fn remove_realm(
        &self,
        realm_id: RealmIdSize,
    ) -> (message: Option<Message>)
        ensures
            optional_message_model(message) == self@.outgoing(Request::RemoveRealm { realm_id }),
    {
        match self.get_user_id() {
            Some(user_id) => Some(Message::from(MessageType::RemoveRealm((MessageHeader::new(user_id, 0, 0), realm_id)))),
            None => None,
        }
    }

    /// The message that asks a user to be a friend.
    pub fn add_friend(
        &self,
        friend_id: UserIdSize,
    ) -> (message: Option<Message>)
        ensures
            optional_message_model(message) == self@.outgoing(Request::AddFriend { friend_id }),
    {
        match self.get_user_id() {
            Some(user_id) => Some(Message::from(MessageType::NewFriendRequest((MessageHeader::new(user_id, 0, 0), friend_id)))),
            None => None,
        }
    }

    /// The message that ends a friendship.
    pub fn remove_friend(
        &self,
        friend_id: UserIdSize,
    ) -> (message: Option<Message>)
        ensures
            optional_message_model(message) == self@.outgoing(Request::RemoveFriend { friend_id }),
    {
        match self.get_user_id() {
            Some(user_id) => Some(Message::from(MessageType::RemoveFriend((MessageHeader::new(user_id, 0, 0), friend_id)))),
            None => None,
        }
    }

    /// The message that says that the user is typing.
    pub fn send_typing(
        &self,
        realm_id: RealmIdSize,
        channel_id: ChannelIdSize,
    ) -> (message: Option<Message>)
        ensures
            optional_message_model(message) == self@.outgoing(
                Request::Typing { realm_id, channel_id },
            ),
    {
        match self.get_user_id() {
            Some(user_id) => Some(Message::from(MessageType::Typing(MessageHeader::new(user_id, realm_id, channel_id)))),
            None => None,
        }
    }
}

} // verus!
