//! Core logic of a per-guild music playback bot: title parsing, search query
//! classification, lyrics resolution, session state, and message rendering.
//!
//! Everything here is verified; the network, gateway and voice plumbing that
//! drives it lives outside the library.

pub mod clean;
pub mod commands;
pub mod json;
pub mod links;
pub mod lyrics;
pub mod messages;
pub mod numtext;
pub mod render;
pub mod search;
pub mod session;
pub mod store;
pub mod text;
pub mod title;
pub mod trackqueue;
