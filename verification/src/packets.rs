//! Readers for the three kinds of frame that the earbuds send once notifications
//! are on. Each kind opens with its own marker, so a frame is read by at most one
//! of them.

pub mod battery;
pub mod in_ear;
pub mod metadata;
