use kagu::{
    Action, AudioCommand, ChannelType, Client, ClientError, Closure, ConnectionCommand, Message,
    MessageHeader, MessageType, ReceiveEvent, User,
};

fn new_client() -> Client {
    Client::new(String::from("127.0.0.1"), 4433, String::from("ann"))
}

fn message(contents: MessageType) -> Message {
    Message::from(contents)
}

fn received(contents: MessageType) -> ReceiveEvent {
    ReceiveEvent::Received(message(contents))
}

fn login(id: u64, name: &str) -> ReceiveEvent {
    received(MessageType::LoginSuccess(User::new(id, String::from(name))))
}

fn logged_in() -> Client {
    let mut client = new_client();
    client.receive_data(login(7, "Ann"));
    client
}

fn header(realm_id: u64, channel_id: u64) -> MessageHeader {
    MessageHeader::new(7, realm_id, channel_id)
}

fn chunks() -> Vec<(String, Option<u64>)> {
    vec![(String::from("hello "), None), (String::from("@bob"), Some(9))]
}

#[test]
fn new_client_is_nobody() {
    let mut client = new_client();
    assert!(!client.is_logged_in());
    assert_eq!(client.get_user_id(), None);
    assert_eq!(client.get_username(), None);
    assert_eq!(client.get_new_messages(), vec![]);
    assert_eq!(client.get_realms(), vec![]);
}

#[test]
fn running_receives_before_it_logs_in() {
    let mut client = new_client();
    let expected = || {
        vec![
            Action::StartReceiving,
            Action::Send(message(MessageType::LoginAttempt(String::from("ann")))),
        ]
    };
    assert_eq!(client.run_client(), expected());
    client.receive_data(login(7, "Ann"));
    client.disconnect();
    assert_eq!(client.run_client(), expected());
}

#[test]
fn login_sets_the_user_and_asks_for_realms() {
    let mut client = new_client();
    assert_eq!(
        client.receive_data(login(7, "Ann")),
        vec![Action::Send(message(MessageType::GetRealms(7))), Action::PollCommands]
    );
    assert!(client.is_logged_in());
    assert_eq!(client.get_user_id(), Some(7));
    assert_eq!(client.get_username(), Some(String::from("Ann")));
    assert_eq!(client.get_new_messages(), vec![]);
}

#[test]
fn last_login_counts() {
    let mut client = logged_in();
    client.receive_data(login(8, "Bob"));
    assert_eq!(client.get_user_id(), Some(8));
    assert_eq!(client.get_username(), Some(String::from("Bob")));
    assert_eq!(
        client.remove_friend(1),
        Some(message(MessageType::RemoveFriend((MessageHeader::new(8, 0, 0), 1))))
    );
}

#[test]
fn login_is_kept() {
    let mut client = logged_in();
    client.disconnect();
    client.receive_data(ReceiveEvent::Closed(Closure::LocallyClosed));
    client.get_new_messages();
    client.get_realms();
    assert!(client.is_logged_in());
    assert_eq!(client.get_user_id(), Some(7));
}

#[test]
fn audio_is_played_and_not_queued() {
    let mut client = logged_in();
    let audio = (MessageHeader::new(3, 1, 2), vec![5, 6]);
    assert_eq!(
        client.receive_data(received(MessageType::Audio(audio))),
        vec![Action::PlayAudio(3, vec![5, 6]), Action::PollCommands]
    );
    assert_eq!(client.get_new_messages(), vec![]);
}

#[test]
fn logins_are_answered_and_audio_is_played_in_order() {
    let mut client = new_client();
    let mut actions: Vec<Action> = Vec::new();
    let audio = |user_id: u64, byte: u8| {
        received(MessageType::Audio((MessageHeader::new(user_id, 1, 2), vec![byte])))
    };
    for event in [
        audio(3, 30),
        login(7, "Ann"),
        ReceiveEvent::NoCommand,
        audio(4, 40),
        received(MessageType::Other(vec![9])),
        login(8, "Bob"),
        audio(3, 31),
    ] {
        actions.append(&mut client.receive_data(event));
    }
    actions.retain(|action| matches!(action, Action::Send(_) | Action::PlayAudio(_, _)));
    assert_eq!(
        actions,
        vec![
            Action::PlayAudio(3, vec![30]),
            Action::Send(message(MessageType::GetRealms(7))),
            Action::PlayAudio(4, vec![40]),
            Action::Send(message(MessageType::GetRealms(8))),
            Action::PlayAudio(3, vec![31]),
        ]
    );
}

#[test]
fn other_messages_wait_in_order() {
    let mut client = new_client();
    let go_on = || vec![Action::PollCommands];
    assert_eq!(client.receive_data(received(MessageType::Other(vec![1, 2]))), go_on());
    assert_eq!(client.receive_data(received(MessageType::Typing(header(1, 2)))), go_on());
    client.receive_data(login(7, "Ann"));
    assert_eq!(
        client.get_new_messages(),
        vec![message(MessageType::Other(vec![1, 2])), message(MessageType::Typing(header(1, 2)))]
    );
    assert_eq!(client.get_new_messages(), vec![]);
    assert_eq!(client.receive_data(received(MessageType::Text((header(1, 2), chunks())))), go_on());
    assert_eq!(
        client.get_new_messages(),
        vec![message(MessageType::Text((header(1, 2), chunks())))]
    );
}

#[test]
fn commands_come_before_messages() {
    let mut client = new_client();
    assert_eq!(client.receive_data(ReceiveEvent::NoCommand), vec![Action::AcceptMessage]);
    assert_eq!(
        client.receive_data(ReceiveEvent::Command(ConnectionCommand::StopReceiving)),
        vec![Action::EndReceiving]
    );
    assert_eq!(
        client.receive_data(ReceiveEvent::CommandsGone),
        vec![
            Action::PrintError(String::from("No sender available to receive from")),
            Action::EndReceiving
        ]
    );
    assert_eq!(client.get_new_messages(), vec![]);
}

#[test]
fn every_closure_shows_as_disconnect() {
    let mut client = new_client();
    client.receive_data(received(MessageType::Other(vec![])));
    let reason = "done \u{2714}".as_bytes().to_vec();
    assert_eq!(
        client.receive_data(ReceiveEvent::Closed(Closure::ApplicationClosed { code: 120, reason })),
        vec![
            Action::Print(String::from("Connection closed. Code: 120, Reason: done \u{2714}")),
            Action::EndReceiving
        ]
    );
    assert_eq!(
        client.receive_data(ReceiveEvent::Closed(Closure::LocallyClosed)),
        vec![Action::EndReceiving]
    );
    assert_eq!(
        client.receive_data(ReceiveEvent::Closed(Closure::Failed)),
        vec![
            Action::PrintError(String::from("[client] unhandled stream error")),
            Action::EndReceiving
        ]
    );
    assert_eq!(
        client.get_new_messages(),
        vec![
            message(MessageType::Other(vec![])),
            message(MessageType::Disconnect),
            message(MessageType::Disconnect),
            message(MessageType::Disconnect)
        ]
    );
}

#[test]
fn nothing_follows_the_end_of_the_loop() {
    let mut client = new_client();
    // What the connection has to offer, in turn, to a loop that finds no command.
    let mut offered = vec![
        received(MessageType::Other(vec![1])),
        login(7, "Ann"),
        received(MessageType::Other(vec![2])),
        ReceiveEvent::Closed(Closure::LocallyClosed),
        received(MessageType::Other(vec![3])),
        ReceiveEvent::Closed(Closure::Failed),
    ]
    .into_iter();
    let mut last = Action::PollCommands;
    let mut rounds: usize = 0;
    while last != Action::EndReceiving {
        let event = match last {
            Action::PollCommands => ReceiveEvent::NoCommand,
            Action::AcceptMessage => offered.next().unwrap(),
            other => panic!("{:?}", other),
        };
        last = client.receive_data(event).pop().unwrap();
        rounds += 1;
    }
    assert_eq!(rounds, 8);
    assert_eq!(offered.count(), 2);
    assert_eq!(
        client.get_new_messages(),
        vec![
            message(MessageType::Other(vec![1])),
            message(MessageType::Other(vec![2])),
            message(MessageType::Disconnect)
        ]
    );
}

#[test]
fn empty_reason_is_printed_as_nothing() {
    let mut client = new_client();
    let closure = Closure::ApplicationClosed { code: 0, reason: vec![] };
    assert_eq!(
        client.receive_data(ReceiveEvent::Closed(closure))[0],
        Action::Print(String::from("Connection closed. Code: 0, Reason: "))
    );
}

#[test]
fn requests_without_login_are_dropped() {
    let client = new_client();
    assert_eq!(client.send_mention_message(1, 2, chunks()), None);
    assert_eq!(client.send_reply_message(1, 2, 3, chunks()), None);
    assert_eq!(client.send_image(1, 2, vec![1]), None);
    assert_eq!(client.send_typing(1, 2), None);
    assert_eq!(client.join_channel(1, ChannelType::TextChannel, 2), None);
    assert_eq!(client.join_channel(1, ChannelType::VoiceChannel, 2), None);
    assert_eq!(client.add_channel(1, ChannelType::TextChannel, String::from("c")), None);
    assert_eq!(client.remove_channel(1, ChannelType::TextChannel, 2), None);
    assert_eq!(client.add_realm(String::from("r")), None);
    assert_eq!(client.remove_realm(1), None);
    assert_eq!(client.add_friend(1), None);
    assert_eq!(client.remove_friend(1), None);
    assert_eq!(client.hang_up(&1, &2), vec![]);
    assert_eq!(client.connect_voice(1, 2), vec![]);
}

#[test]
fn text_requests_name_user_and_channel() {
    let client = logged_in();
    assert_eq!(
        client.send_mention_message(1, 2, chunks()),
        Some(message(MessageType::Text((header(1, 2), chunks()))))
    );
    assert_eq!(
        client.send_reply_message(1, 2, 3, chunks()),
        Some(message(MessageType::Reply((header(1, 2), 3, chunks()))))
    );
    assert_eq!(
        client.send_image(1, 2, vec![4, 5]),
        Some(message(MessageType::Image((header(1, 2), vec![4, 5]))))
    );
    assert_eq!(client.send_typing(1, 2), Some(message(MessageType::Typing(header(1, 2)))));
}

#[test]
fn joining_depends_on_the_kind_of_channel() {
    let client = logged_in();
    assert_eq!(
        client.join_channel(1, ChannelType::TextChannel, 2),
        Some(message(MessageType::JoinChannel((header(1, 2), ChannelType::TextChannel))))
    );
    assert_eq!(
        client.join_channel(1, ChannelType::VoiceChannel, 2),
        Some(message(MessageType::UserJoinedVoiceChannel(header(1, 2))))
    );
}

#[test]
fn realms_channels_and_friends_can_be_changed() {
    let client = logged_in();
    let voice = ChannelType::VoiceChannel;
    assert_eq!(
        client.add_channel(1, voice, String::from("c")),
        Some(message(MessageType::AddChannel((header(1, 0), voice, String::from("c")))))
    );
    assert_eq!(
        client.remove_channel(1, voice, 2),
        Some(message(MessageType::RemoveChannel((header(1, 2), voice))))
    );
    assert_eq!(
        client.add_realm(String::from("r")),
        Some(message(MessageType::AddRealm((header(0, 0), String::from("r")))))
    );
    assert_eq!(
        client.remove_realm(5),
        Some(message(MessageType::RemoveRealm((header(0, 0), 5))))
    );
    assert_eq!(
        client.add_friend(9),
        Some(message(MessageType::NewFriendRequest((header(0, 0), 9))))
    );
    assert_eq!(
        client.remove_friend(9),
        Some(message(MessageType::RemoveFriend((header(0, 0), 9))))
    );
}

#[test]
fn voice_starts_and_stops() {
    let client = logged_in();
    assert_eq!(
        client.connect_voice(1, 2),
        vec![
            Action::SetAudioUser(7),
            Action::StartRecording(header(1, 2)),
            Action::StartListening
        ]
    );
    assert_eq!(
        client.hang_up(&1, &2),
        vec![
            Action::Send(message(MessageType::UserLeftVoiceChannel(header(1, 2)))),
            Action::StopAudio
        ]
    );
}

#[test]
fn leaving_is_announced_and_stops_receiving_once() {
    let mut client = logged_in();
    client.run_client();
    let announced = || Action::Send(message(MessageType::Disconnecting(7)));
    let close = || Action::Close { code: 0, reason: String::from("done") };
    assert_eq!(
        client.disconnect(),
        vec![announced(), close(), Action::AwaitClosed, Action::StopReceiving]
    );
    assert_eq!(client.disconnect(), vec![announced(), close(), Action::AwaitClosed]);
    client.run_client();
    assert_eq!(client.disconnect().last(), Some(&Action::StopReceiving));
}

#[test]
fn leaving_without_login_only_closes() {
    let mut client = new_client();
    assert_eq!(
        client.disconnect(),
        vec![Action::Close { code: 0, reason: String::from("done") }, Action::AwaitClosed]
    );
}

#[test]
fn users_have_an_id_and_a_name() {
    let user = User::new(3, String::from("Eve"));
    assert_eq!(user.get_id(), 3);
    assert_eq!(user.get_username(), "Eve");
}

#[test]
fn errors_and_commands_have_their_variants() {
    assert_eq!(format!("{:?}", ClientError::NotLoggedIn), "NotLoggedIn");
    assert_eq!(format!("{:?}", ClientError::FailedToJoinChannel), "FailedToJoinChannel");
    for command in [
        AudioCommand::Start,
        AudioCommand::Stop,
        AudioCommand::Mute,
        AudioCommand::Unmute,
    ] {
        assert!(matches!(
            command,
            AudioCommand::Start | AudioCommand::Stop | AudioCommand::Mute | AudioCommand::Unmute
        ));
    }
}
