# kagu

The core of a chat client, verified with Verus.

- `src/client.rs`: the session of a client. Its methods say what is to be sent or
  done on each request and on each event of the connection.
- `src/request.rs`: the requests of a user and the messages that put them to the
  server.
- `src/message.rs`: the messages, and the models that the contracts speak of.
- `src/laws.rs`: what holds of a session over its whole life.
- `src/layout.rs`, `src/personal.rs`, `src/screen_laws.rs`: the personal screen, its
  panes and what holds of them.
- `src/decimal.rs`, `src/drain.rs`: numbers as text, and emptying collections.
- `app/`: the QUIC connection, the tasks and the terminal around the core.

The wire format, the audio devices and the labels of the panes come from outside:
`app/` takes them as implementations of `Codec`, `AudioManager` and `PaneLabels`.
