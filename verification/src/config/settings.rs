//! Application settings and their defaults.
//!
//! Settings are read from a TOML file; every field has a default so the
//! file manager works without one. The sections that hold only plain values
//! live here; a missing field takes the value of the `default_*` functions.

use vstd::prelude::*;

verus! {

/// General file-browsing preferences.
#[derive(Debug, Clone)]
pub struct GeneralConfig {
    pub show_hidden: bool,
    pub default_sort: String,
    pub sort_dir_first: bool,
    pub confirm_delete: bool,
}

impl Default for GeneralConfig {
    fn default() -> (c: Self)
        ensures
            !c.show_hidden,
            c.default_sort@ == "name"@,
            c.sort_dir_first,
            c.confirm_delete,
    {
        GeneralConfig {
            show_hidden: false,
            default_sort: default_sort(),
            sort_dir_first: default_true(),
            confirm_delete: default_true(),
        }
    }
}

/// File preview pane configuration.
#[derive(Debug, Clone)]
pub struct PreviewConfig {
    pub enabled: bool,
    pub max_file_size: String,
    pub syntax_theme: String,
    pub image_protocol: String,
}

impl Default for PreviewConfig {
    fn default() -> (c: Self)
        ensures
            c.enabled,
            c.max_file_size@ == "10MB"@,
            c.syntax_theme@ == "Dracula"@,
            c.image_protocol@ == "auto"@,
    {
        PreviewConfig {
            enabled: default_true(),
            max_file_size: default_max_file_size(),
            syntax_theme: default_syntax_theme(),
            image_protocol: default_image_protocol(),
        }
    }
}

/// Git integration settings.
#[derive(Debug, Clone)]
pub struct GitConfig {
    pub enabled: bool,
    pub show_status: bool,
    pub show_branch: bool,
}

impl Default for GitConfig {
    fn default() -> (c: Self)
        ensures
            c.enabled,
            c.show_status,
            c.show_branch,
    {
        GitConfig { enabled: default_true(), show_status: default_true(), show_branch: default_true() }
    }
}

/// Embedded terminal configuration.
#[derive(Debug, Clone)]
pub struct TerminalConfig {
    pub shell: String,
    pub sync_cwd: bool,
    pub height_percent: u16,
}

impl Default for TerminalConfig {
    fn default() -> (c: Self)
        ensures
            c.shell@ == "auto"@,
            c.sync_cwd,
            c.height_percent == 30,
    {
        TerminalConfig {
            shell: default_terminal_shell(),
            sync_cwd: default_true(),
            height_percent: default_terminal_height(),
        }
    }
}

/// Default for the terminal shell: pick the user's shell automatically.
pub fn default_terminal_shell() -> (r: String)
    ensures
        r@ == "auto"@,
{
    "auto".to_owned()
}

/// Default height of the terminal pane, in percent of the screen.
pub fn default_terminal_height() -> (r: u16)
    ensures
        r == 30,
{
    30
}

/// Default of the boolean switches that are on unless turned off.
pub fn default_true() -> (r: bool)
    ensures
        r,
{
    true
}

/// Default sort field name.
pub fn default_sort() -> (r: String)
    ensures
        r@ == "name"@,
{
    "name".to_owned()
}

/// Default largest file size that the preview reads.
pub fn default_max_file_size() -> (r: String)
    ensures
        r@ == "10MB"@,
{
    "10MB".to_owned()
}

/// Default syntax highlighting theme.
pub fn default_syntax_theme() -> (r: String)
    ensures
        r@ == "Dracula"@,
{
    "Dracula".to_owned()
}

/// Default image protocol: detect the terminal's.
pub fn default_image_protocol() -> (r: String)
    ensures
        r@ == "auto"@,
{
    "auto".to_owned()
}

/// Default date format of the file list.
pub fn default_date_format() -> (r: String)
    ensures
        r@ == "%Y-%m-%d %H:%M"@,
{
    "%Y-%m-%d %H:%M".to_owned()
}

} // verus!
