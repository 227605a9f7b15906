//! What the operations of the library promise, stated over their inputs and their results: each law
//! speaks of any result that an operation may give (`call_ensures`), of the fields of what it was
//! given, and of other calls, and of nothing in between.
pub mod content;
pub mod element;
pub mod frame;
pub mod log;
pub mod renderer;
