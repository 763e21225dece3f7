//! Core of a desktop status bar: the system-state aggregator.
//!
//! Each collector of system information (battery, keyboard LEDs, audio volume,
//! network, Bluetooth) is modelled here as a decision over plain values that the
//! caller gathered; the snapshot assembler merges their outcomes, the state store
//! holds and publishes the current snapshot, and the update loop is a small state
//! machine that the caller drives. The launcher's mode choice, web-search mode and
//! result selection live here too.
pub mod text;
pub mod percentage;
pub mod battery;
pub mod leds;
pub mod volume;
pub mod bluetooth;
pub mod network;
pub mod snapshot;
pub mod store;
pub mod update_loop;
pub mod config;
pub mod process;
pub mod launcher;
