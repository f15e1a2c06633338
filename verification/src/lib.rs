//! Sensor state logic of a laptop sensor daemon.
//!
//! The daemon merges readings from a tablet-mode switch and from a sensor proxy
//! service into one device state, and exposes that state as read-only D-Bus
//! properties. This library holds the decisions the daemon makes: how raw sensor
//! notifications become device events, how events update the state, which exposed
//! properties an update announces, and which sensors to claim and release.

pub mod event;
pub mod input;
pub mod processor;
pub mod sensors;
pub mod service;
pub mod text;
