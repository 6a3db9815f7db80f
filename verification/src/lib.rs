//! A change-data-capture bridge: the rules by which row-level changes of a
//! database are turned into broker messages and resumable cursors.

pub mod changefeed;
pub mod config;
pub mod db_cursor;
pub mod event;
pub mod guarantees;
pub mod json;
pub mod options;
pub mod publisher;
pub mod retry;

pub use event::{BridgeEvent, CursorPayload, PublishPayload};
