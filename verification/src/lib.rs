//! Backbone of a file-transfer server: a typed message protocol, a framed
//! transfer engine, a path sandbox, and three small persisted stores.
//!
//! The stores and the transfer engine read no file and no socket: the caller
//! performs the steps that they ask for and reports back what happened. Three
//! questions are asked of the machine from here, through `std::path` and
//! `homedir`: what a path resolves to, whether a path exists, and where the
//! user's home is. Nothing is promised of the answers; what is done with each
//! answer is proved.

pub mod text;
pub mod search;
pub mod paths;
pub mod http_codes;
pub mod file_io;
pub mod transfer;
pub mod network_stats;
pub mod messages;
pub mod record_store;
pub mod credentials;
pub mod io_loc;
pub mod io_tools;
pub mod registry;
