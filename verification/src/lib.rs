//! Control and telemetry core for a quadcopter that speaks a plain-text UDP
//! command protocol and streams raw video datagrams.
//!
//! The crate holds the decisions of a drone session: how replies are read,
//! how the handshake retries, how the shared state follows command results,
//! and how the latest video packet is kept and forwarded. Sockets, threads
//! and timers belong to the caller, which performs the actions this crate
//! asks for and reports back what happened.

pub mod command;
pub mod connect;
pub mod state;
pub mod telemetry;
pub mod text;
pub mod video_capture;
pub mod video_stream;
