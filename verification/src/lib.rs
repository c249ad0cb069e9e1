//! Decision logic of a home light controller driven by wireless light switches:
//! switch payload decoding, light commands and their MQTT payloads, the light
//! selection state, the alarm schedule and the process-pair heartbeat.

pub mod alarm;
pub mod buttons;
pub mod commands;
pub mod config;
pub mod controller;
pub mod heartbeat;
pub mod laws;
pub mod lights;
pub mod text;
