//! The pages of the configuration window, as far as they can be told apart
//! without drawing them: each has an icon, and some are shown while the
//! device is in an error state.  The pages that configure a microphone's
//! effects have a heading instead.

pub mod about;
pub mod config;
pub mod error;
pub mod lighting;
pub mod link;
