//! A single-user todo list: an ordered store of tasks, the text shown for
//! it, and the decisions of an interactive command session.
pub mod item;
pub mod store;
pub mod text;
pub mod display;
pub mod session;
pub mod persist;
