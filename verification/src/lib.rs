//! Verified core of a terminal front-end for the Psiphon tunnel engine:
//! the connection state machine fed by the engine's notice stream, the
//! notice classification and summaries, command-line parsing, and the
//! small layout computations of the interface.

pub mod app;
pub mod cli;
pub mod json;
pub mod laws;
pub mod notice;
pub mod psiphon;
pub mod text;
pub mod ui;
