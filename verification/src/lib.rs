//! The App layer of the oom-edit terminal Markdown editor: command line,
//! configuration, command registry and key routing, overlays, tab and
//! viewport state, the body's layout in display cells, lifecycle decisions
//! and the event-loop schedule.
//!
//! Everything here works on plain values; the program around it performs
//! the terminal and file-system work and feeds the outcomes back in.

pub mod keys;
pub mod text;
pub mod registry;
pub mod keymap;
pub mod lifecycle;
pub mod confirm;
pub mod layout;
pub mod fuzzy;
pub mod palette;
pub mod palette_layout;
pub mod overlay;
pub mod trouble;
pub mod spell_suggest;
pub mod gutter;
pub mod args;
pub mod clipboard;
pub mod config;
pub mod scroll;
pub mod event;
pub mod tabs;
pub mod flow;
pub mod routing;
pub mod rendered_rows;
pub mod app_state;
pub mod body_geometry;
pub mod styled_line;
pub mod status_row;
