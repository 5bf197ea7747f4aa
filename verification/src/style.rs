//! Styling inputs of the tab bar: the status a tab is styled by.
pub use crate::status::Status;
