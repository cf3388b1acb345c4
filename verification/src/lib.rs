//! Verified core of the ESP32-S3 robot hardware harness: the robot's
//! mode/emotion state machine, the remote control panel's state store and
//! request rules, the orchestrator's decisions, and the text formats the
//! firmware and the localhost bench panel produce.
pub mod domain;
pub mod state;
pub mod text;
pub mod model;
pub mod telemetry;
pub mod pins;
pub mod panel;
pub mod store;
pub mod motion;
pub mod touch;
pub mod audio;
pub mod events;
pub mod orchestrator;
pub mod display;
pub mod http;
pub mod bench;
pub mod ports;
