//! Resilient relay of push notifications: the decisions of one streaming
//! session, its reconnect policy and the draining of queued messages, each
//! stated as a state machine that a host program drives.

pub mod api;
pub mod backoff;
pub mod credentials;
pub mod error;
pub mod frame;
pub mod icon;
pub mod message;
pub mod relay;
pub mod supervisor;
