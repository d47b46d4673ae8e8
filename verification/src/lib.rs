//! Decision core for reading a Wii Balance Board.
//!
//! The library holds every rule of the board's protocol and none of the
//! device access. A caller owns the driver handle, asks the library what to
//! do next, does it, and hands the driver's answer back:
//!
//! * [`WiiBoard::new`] opens a connection attempt ([`Connect`]),
//! * [`WiiBoard::poll`] opens one probe of a connected board ([`Poll`]),
//! * [`WiiBoardRealtime`] is the state behind a background acquisition loop
//!   that keeps only the latest reading.
//!
//! Pressures travel as IEEE 754 single-precision bit patterns, so that every
//! value, including each NaN, passes through unchanged.

pub mod board;
pub mod error;
pub mod reading;
pub mod realtime;

pub use board::Connect;
pub use board::DriverReply;
pub use board::EventKind;
pub use board::ExpansionKind;
pub use board::Poll;
pub use board::WiiBoard;
pub use board::BOARD_SLOTS;
pub use error::WiiBoardError;
pub use reading::BoardSample;
pub use reading::WiiBoardData;
pub use reading::WiiBoardPoll;
pub use realtime::Acquisition;
pub use realtime::RealtimeState;
pub use realtime::WiiBoardRealtime;
pub use realtime::WorkerEvent;
