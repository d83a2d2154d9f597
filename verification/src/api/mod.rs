//! Clients of music services.

pub mod netease;
