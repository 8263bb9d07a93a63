//! Driver logic for Bluetooth LE motion/pressure sensor devices: the status
//! and command codecs, the recording descriptors, notification decoding, the
//! per-device session state machine and the discovery filter.
pub mod command;
pub mod errors;
pub mod recording;
pub mod registry;
pub mod sample;
pub mod scanner;
pub mod session;
pub mod state;
