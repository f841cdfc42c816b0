//! Native Windows UI controls: the widget models, their layout arithmetic and
//! the event mapping that turns decoded window messages into the
//! application's messages.

pub mod accel;
pub mod color;
pub mod controls;
pub mod error;
pub mod geometry;
pub mod hwnd;
pub mod message;

pub mod theme;
pub mod units;

pub use error::Error;
