//! Decision logic of a remote Wayland desktop: RTP and H.264 reassembly, frame
//! correlation, viewer fan-out, adaptive quality, input ownership, control
//! sessions, and the bookkeeping of the compositor that produces the frames.

pub mod assembler;
pub mod bits;
pub mod clipboard;
pub mod clock;
pub mod commands;
pub mod control;
pub mod correlator;
pub mod cursor;
pub mod daemon;
pub mod decoration;
pub mod desktop;
pub mod drops;
pub mod encoder;
pub mod events;
pub mod frames;
pub mod geometry;
pub mod h264;
pub mod http;
pub mod hub;
pub mod input;
pub mod messages;
pub mod options;
pub mod outbound;
pub mod pipeline;
pub mod quality;
pub mod queue;
pub mod readiness;
pub mod rtp;
pub mod session;
pub mod shutdown;
pub mod socket;
pub mod stream;
pub mod text;
pub mod timings;
pub mod values;
pub mod windows;
