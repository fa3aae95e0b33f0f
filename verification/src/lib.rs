//! The logic of a music-playing chat bot: track metadata, link recognition,
//! search queries, queue pages and the decisions its commands make.

pub mod text;
pub mod metadata;
pub mod tiktok;
pub mod spotify;
pub mod weburl;
pub mod words;
pub mod soundcloud;
pub mod commands;
pub mod ffmpeg;
