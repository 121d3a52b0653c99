//! TreFM library — UI-agnostic file manager logic.

use vstd::prelude::*;

pub mod action;
pub mod config;
pub mod error;
pub mod event;
pub mod fs;
pub mod fuzzy;
pub mod git;
pub mod nav;
pub mod remote;
pub mod sort;
pub mod text;
pub mod tui;
