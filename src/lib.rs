//! Competitive-programming answer checker: verdict engine, pane state
//! machine and session snapshot logic.
pub mod keys;
pub mod panes;
pub mod session;
pub mod status;
pub mod text;
pub mod verdict;

pub use status::Status;
