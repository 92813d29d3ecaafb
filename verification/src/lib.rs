//! Prompt assembly and reply handling for an editor assistant backend.
//!
//! The library turns an editor's completion or tutoring request into the
//! messages a chat-completion provider expects, and turns the provider's
//! answer into the JSON body that is sent back to the editor. Talking to
//! the network is left to the program that embeds the library.

pub mod request;
pub mod prompt;
pub mod chat;
pub mod reply;
pub mod route;
