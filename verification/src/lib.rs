//! The session core of an interactive terminal client for message-oriented
//! services: the bounded message history, the focus and input state machine,
//! the decisions of the two transport pumps and the text that the screen shows.
//!
//! Everything here works on plain values. Terminal, transport and codec live
//! with the driver, which feeds this crate events and carries out its effects.

pub mod channel;
pub mod client;
pub mod config;
pub mod event;
pub mod history;
pub mod laws;
pub mod model;
pub mod pump;
pub mod screen;
pub mod text;

pub use crate::client::Client;
pub use crate::config::ClientCfg;
