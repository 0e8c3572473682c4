//! Toggle an sshfs mount: decide from the system mount table whether a
//! directory is mounted, and plan the one command that flips that state.

pub mod command;
pub mod config;
pub mod message;
pub mod mtab;
pub mod switch;
pub mod text;
