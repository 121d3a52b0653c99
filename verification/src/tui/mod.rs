//! Terminal front-end state: panels and tabs, key input, the status bar,
//! icons, forms and background-task messages. Drawing is left to the
//! front end; these modules decide what is shown.

pub mod app;
pub mod breadcrumb;
pub mod background;
pub mod highlight;
pub mod icons;
pub mod input;
pub mod markdown;
pub mod overlay;
pub mod palette;
pub mod preview_text;
pub mod remote_connect;
pub mod state;
pub mod statusbar;
pub mod step;
pub mod style;
pub mod terminal;
pub mod tree_view;
