//! A group communication channel whose membership and message flow are
//! gated by pluggable access-control policies.
//!
//! The subject of the communication may be a chat channel, a mailing
//! list, a discussion around an article, collaboration on a document,
//! and so on.  Who may join, who may send and who may receive are three
//! independently configurable decisions, each delegated to a [`Guard`]
//! owned by the channel.
//!
//! [`Guard`]: access_control::Guard

pub mod access_control;
pub mod caucus;
