//! Whole-house energy policy for Home Assistant.
//!
//! The daemon reads a small set of perception entities, runs a pure decision
//! matrix, and publishes what the house should be doing through MQTT discovery.
//! It never touches a device: thin automations on the other side forward its
//! decisions.
//!
//! - [`reading`]: the numbers that sensors report.
//! - [`state`]: perception, from entity states to a picture of the house.
//! - [`decide`]: the decision matrix and every temperature in it.
//! - [`daemon`]: the loop, as decisions about events.
//! - [`ha`]: the Home Assistant conversation.
//! - [`mqtt`]: what is published, and where.
//! - [`json`], [`text`]: documents and text.
pub mod daemon;
pub mod decide;
pub mod ha;
pub mod json;
pub mod mqtt;
pub mod reading;
pub mod state;
pub mod text;
