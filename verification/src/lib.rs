//! The verified core of a shared music room: a queue of requested songs,
//! the song that is playing, the users that request them, and the requests
//! and replies that connect the room to a NetEase Cloud Music API server.

pub mod api;
pub mod config;
pub mod error;
pub mod ids;
pub mod json;
pub mod music;
pub mod room;
pub mod source;
pub mod text;
pub mod time;
pub mod user;
