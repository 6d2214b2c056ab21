//! Widget state machines of the martensite toolkit, with their
//! contracts proved by Verus.

pub mod access;
pub mod event;
pub mod text;
pub mod widgets;
