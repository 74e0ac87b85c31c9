//! The modes of the pen and of the touch screen.

pub mod draw;
pub mod touch;
