//! Synchronised music playback between a host and its listeners: the
//! protocol, the decisions of each side and the text handling they share.

pub mod text;
pub mod types;
pub mod unicode;
pub mod host;
pub mod client;
pub mod laws;
pub mod media;
pub mod cider;
pub mod json;
pub mod spotify;
pub mod player;
pub mod session;
pub mod attributes;
