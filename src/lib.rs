//! Real-time delivery and ephemeral-content lifecycle for a chat service:
//! the connection registry, the protocol handler, the presence store's
//! commands, and the expiration sweeper, with the request and response
//! types of the service around them.
pub mod admin;
pub mod algorithm;
pub mod auth;
pub mod bucket_cleanup;
pub mod chat;
pub mod discovery;
pub mod expiration;
pub mod handler;
pub mod media;
pub mod notifications;
pub mod presence;
pub mod protocol;
pub mod registry;
pub mod settings;
pub mod social;
pub mod streaks;
pub mod text;
pub mod unread;
