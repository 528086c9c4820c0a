//! Resolution and caching of emote references: request parsing, the metadata
//! caches, and the single-flight bookkeeping of the asset pipeline.

pub mod emote;
pub mod emote_puller;
pub mod failure;
pub mod http;
pub mod route;
pub mod seventv;
pub mod text;
pub mod twitch;
pub mod utils;
