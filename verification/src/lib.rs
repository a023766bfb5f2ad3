//! Mirrors the state of an audio-routing daemon onto the four-channel display
//! of a mixing console, and turns the console's dials and buttons into daemon
//! commands.
//!
//! The library decides and draws; it neither reads nor sends.  Its caller
//! owns the socket, the console and the clock, reports what happens, and
//! carries out what the library asks for.
//!
//! - `paging` picks the channels of a page; `channel` keeps what is shown of
//!   one source and says what a new snapshot changed.
//! - `session` and `router` turn a new status and the console's input into
//!   actions and requests; `connection` is the life of the connection;
//!   `status` finds the daemon's status among the frames and patches it.
//! - `raster`, `compose`, `shapes` and `text` are the drawing routines;
//!   `render` lays out a channel; `codec` encodes and decodes pictures;
//!   `dial_cache` keeps the encoded dials and the file they are stored in.
//!
//! Every function is verified against the contract written on it.

pub mod channel;
pub mod codec;
pub mod colour;
pub mod compose;
pub mod connection;
pub mod device;
pub mod dial_cache;
pub mod layout;
pub mod pages;
pub mod paging;
pub mod raster;
pub mod render;
pub mod router;
pub mod session;
pub mod shapes;
pub mod sources;
pub mod states;
pub mod status;
pub mod text;
