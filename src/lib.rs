//! Resolution of command-line intent into share-creation or config actions,
//! construction of the outbound share request, and interpretation of the
//! server's reply.
pub mod action;
pub mod api;
pub mod args;
pub mod config;
pub mod text;
