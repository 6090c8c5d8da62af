//! Software implementation of the peripheral ("pad") side of a single-wire,
//! bit-banged game-controller polling protocol.
//!
//! The crate contains the protocol engine only: the pulse-width symbol
//! decoder, the command recognizer, the controller-state bit packing, the
//! symbol timing tables for transmission, and the capture/dispatch state
//! machine.  The electrical line itself (GPIO reads and writes, microsecond
//! delays) is a collaborator that a host binary drives; everything here works
//! on plain sampled levels and symbol sequences.

pub mod codec;
pub mod decoder;
pub mod encoder;
pub mod protocol;
pub mod recognizer;
pub mod symbol;
