//! A status line for a minimalist window manager: sensor readings rendered
//! as short annotated fields, composed into one line, and the decisions of
//! the update loop and of shutdown, each stated and proved.

pub mod text;
pub mod sensors;
pub mod clock;
pub mod compose;
pub mod scheduler;
pub mod lifecycle;
