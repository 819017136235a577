//! Verified core of the torrent throttle: process matching, the monitoring
//! engine, the torrent client protocols and the applet and settings state
//! machines. I/O, async plumbing and the GUI live outside this crate.

pub mod text;
pub mod config;
pub mod monitor;
pub mod client;
pub mod engine;
pub mod applet;
pub mod settings;
pub mod http;
pub mod json;
pub mod transmission;
pub mod qbit;
pub mod tray;
pub mod sandbox;
