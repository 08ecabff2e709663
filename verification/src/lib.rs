//! Helpers around a chat-bot message model: classifying the media attached to
//! a message, locating the best-resolution photo variant, and planning how a
//! referenced file is fetched (read locally or streamed remotely).

pub mod files;
pub mod media;
