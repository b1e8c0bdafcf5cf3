//! A small documentation server library: it maps HTTP request paths to files
//! under a documentation root, models the server's responses, and parses the
//! configuration of the external rebuild command.

pub mod rebuild;
pub mod resolver;
pub mod server;
