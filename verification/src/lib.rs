//! Connection layer of a small online role-playing game: the protocol types,
//! the handshake and login rules, and the per-message decisions a game server
//! takes for one WebSocket client.

pub mod address;
pub mod auth;
pub mod channel;
pub mod channel_laws;
pub mod character;
pub mod clock;
pub mod connection;
pub mod entity;
pub mod game;
pub mod game_laws;
pub mod join;
pub mod join_laws;
pub mod laws;
pub mod log_laws;
pub mod messages;
pub mod payload;
pub mod protocol;
pub mod refusal;
pub mod session;
pub mod session_laws;
pub mod startup;
pub mod startup_laws;
pub mod text;
pub mod text_laws;
pub mod throttle;
pub mod ticks;
pub mod token;
pub mod value_laws;
pub mod world;
