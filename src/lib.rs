//! A long-polling presence monitor: it follows a remote event stream by its
//! resumption cursor and measures the time between bursts of presence events.
pub mod text;
pub mod response;
pub mod tracker;
pub mod sync_loop;
