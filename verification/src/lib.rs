//! A cell that keeps a value on a thread of its own and gives access to it by
//! message passing.
//!
//! - `cell`: the handles (`ThreadCell`, `ThreadCellSession`) and the requests
//!   they send;
//! - `manager`: what the resource's thread decides for each thing it receives;
//! - `resource`: what jobs do to the resource (set, replace, take, get);
//! - `channel`: the crossbeam and tokio channel operations underneath.

pub mod cell;
pub mod channel;
pub mod manager;
pub mod resource;

pub use cell::{RequestError, ThreadCell, ThreadCellMessage, ThreadCellSession};
pub use manager::{Manager, ManagerError, ManagerEvent, ManagerMode, Next};
