//! Navigation logic: panels, history, bookmarks, sorting and filtering.

pub mod filter;
pub mod bookmarks;
pub mod history;
pub mod panel;
