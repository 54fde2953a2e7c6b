//! The project scaffolders: thin planners that say which files a new
//! project gets and with what content.  Writing the files to disk is the
//! caller's business.

pub mod api;
pub mod client;
pub mod server;
pub mod web;
