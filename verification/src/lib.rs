//! A peer session engine for a decentralised, text-based chat node.
//!
//! Each node is at once a network peer, a publisher and a subscriber on one
//! shared topic.  This crate holds the decisions of such a node: who it is,
//! which peers it floods messages to, and how it reacts to each line typed by
//! the user and to each event that arrives from the network.  Transport,
//! terminal input and terminal output are left to the program around it.

pub mod address;
pub mod event;
pub mod flood;
pub mod identity;
pub mod liveness;
pub mod message;
pub mod prompt;
pub mod session;
