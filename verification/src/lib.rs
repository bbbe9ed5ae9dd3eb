//! Bulk subtitle maintenance: the rules by which media inventories are
//! queried, filtered against the ledger of processed subtitles, and turned
//! into a sequence of subtitle action requests.

pub mod actions;
pub mod cli;
pub mod connection;
pub mod data_types;
pub mod db;
pub mod endpoints;
pub mod text;
pub mod urls;
