//! The core of a chat client: the state of a session, what the client sends and
//! does on each request and on each network event, and the layout and contents
//! of its personal screen.
//!
//! Everything here is a computation on plain values. Sockets, tasks and the
//! terminal are the business of the program around this library.

pub mod client;
pub mod decimal;
pub mod drain;
pub mod laws;
pub mod layout;
pub mod message;
pub mod model_laws;
pub mod operation_laws;
pub mod personal;
pub mod request;
pub mod screen_laws;

pub use client::{
    Action, AudioCommand, Client, ClientError, Closure, ConnectFailure, ConnectionCommand,
    ReceiveEvent, CHANNEL_CAPACITY, CONNECT_FAILURE_EXIT_CODE, MAX_MESSAGE_BYTES,
};
pub use decimal::{push_decimal, socket_address};
pub use drain::{drain_back, drain_front};
pub use layout::{Area, Direction};
pub use message::{
    ChannelIdSize, ChannelType, Message, MessageHeader, MessageIdSize, MessageType,
    RealmDescription, RealmIdSize, User, UserIdSize,
};
pub use personal::{
    compose, lay_out, render, Alignment, App, Color, Draw, Pane, Panes, Style, Title, Widget,
};
