//! Verified core of a bridge that forwards Bluetooth Low Energy events to a
//! message broker (MQTT or Memphis).
//!
//! - [`config`]: the settings, loaded from named variables with defaults;
//! - [`parse`]: the grammar of boolean and unsigned settings;
//! - [`bridge`]: the choice of broker and base topic;
//! - [`central`]: from an event of the Bluetooth adapter to the message and
//!   its topic;
//! - [`event`], [`events`]: the published messages;
//! - [`mqtt`]: the MQTT connection settings;
//! - [`publish`]: the retry policy of publishing;
//! - [`text`]: string helpers (path joining, character replacement,
//!   hexadecimal encoding).

pub mod bridge;
pub mod central;
pub mod config;
pub mod event;
pub mod events;
pub mod mqtt;
pub mod parse;
pub mod publish;
pub mod text;
