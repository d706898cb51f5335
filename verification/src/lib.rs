//! Driver logic for the Grow R503 fingerprint sensor.
//!
//! The sensor talks a framed, checksummed packet protocol over a serial
//! line. This crate holds the protocol: the packet layout, the checksum,
//! the meaning of each reply, and the command sequencing of a session
//! (password handshake before any other command, cached system parameters).
//! The serial I/O itself is performed by the caller, who feeds what the line
//! delivered back into [`R503::step`].
pub mod bytes;
pub mod driver;
pub mod enroll;
pub mod led;
pub mod mock;
pub mod packet;
pub mod scan;
pub mod text;
pub mod types;

pub use driver::{Action, Command, Event, Reply, R503};
pub use types::{CharacterBuffer, ConfirmationCode, Error};
