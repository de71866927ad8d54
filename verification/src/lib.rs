//! The decisions behind the `turbopack dev` command: what a development server is built from,
//! which port it listens on, what it serves, and what it tells the terminal.
//!
//! Everything here computes on plain values. Sockets, tasks, clocks and the terminal stay with
//! the caller, who performs what these functions decide.
pub mod address;
pub mod builder;
pub mod port_search;
pub mod profile;
pub mod progress;
pub mod source;
pub mod start;
pub mod style;
pub mod text;
