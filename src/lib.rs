//! Decisions of a chat bot that answers a command with a picture found
//! through an image-search service: the credential and request checks, the
//! reading of the service's reply, and the reply sent back to the conversation.

pub mod provider;
pub mod handler;
