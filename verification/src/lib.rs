//! Pairing, signaling and frame-ingestion core of a desktop screen-mirroring
//! receiver.
//!
//! The crate holds the logic of the receiver: the pairing payload carried by
//! the QR artifact, the signaling message format, the session state machine
//! and the conversion of streamed video frames into RGBA buffers. Sockets,
//! windows and the negotiation engine live outside; they feed events in and
//! carry actions out.
//!
//! - [`app`]: the session manager, which owns the three components below
//!   and alone says whether a device is paired.
//! - [`qr`]: the pairing payload and the QR artifact that carries it.
//! - [`webrtc`]: the signaling channel and the orchestrator of the
//!   negotiation engine.
//! - [`renderer`]: the frame pipeline.
//! - [`signaling`], [`frame`], [`json`]: the formats the components speak.
//! - [`clock`], [`ui`]: the wall clock, and what the shell shows.
//!
//! Every operation states, as a function on plain values, what it returns
//! and how it changes its component; the laws of each component are proved
//! over those functions.

pub mod app;
pub mod clock;
pub mod frame;
pub mod json;
pub mod qr;
pub mod renderer;
pub mod signaling;
pub mod ui;
pub mod webrtc;
