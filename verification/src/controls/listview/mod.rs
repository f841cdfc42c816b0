//! A virtual, owner-drawn report list view.

pub mod access;
pub mod draw;
pub mod events;
pub mod model;
pub mod state;
pub mod style;
pub mod theme;
