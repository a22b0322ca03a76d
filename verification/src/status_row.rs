//! The status row: the command line when one is open, nothing in the
//! middle while a transient message shows, and otherwise the document's
//! indicators beside the key hints; the labels for a document without a
//! path; and where the which-key hint goes.

use vstd::prelude::*;
use crate::layout::{sat_sub, Rect};
use crate::text::{concat, to_string};
use vstd::string::StringSliceAdditionalSpecFns;

verus! {

/// The text the status row shows for an open command line: `:` and the
/// typed command, else the search prompt, if any.
pub fn status_command_line(command_line: Option<&str>, search_prompt: Option<String>) -> (r: Option<String>)
    ensures
        command_line matches Some(t) ==> r matches Some(s) && s@ == ":"@ + t@,
        command_line is None ==> r == search_prompt,
{
    match command_line {
        Some(text) => Some(concat(":", text)),
        None => search_prompt,
    }
}

/// The document indicators: `[+]` for unsaved changes and `[spell off]`
/// when spell checking is off, separated by a space.
pub open spec fn spec_status_indicators(dirty: bool, spell_enabled: bool) -> Seq<char> {
    if dirty && !spell_enabled {
        "[+]"@ + " "@ + "[spell off]"@
    } else if dirty {
        "[+]"@
    } else if !spell_enabled {
        "[spell off]"@
    } else {
        Seq::empty()
    }
}

/// The document indicators for the status row.
pub fn status_indicators(dirty: bool, spell_enabled: bool) -> (r: String)
    ensures
        r@ == spec_status_indicators(dirty, spell_enabled),
{
    if dirty && !spell_enabled {
        let first = concat("[+]", " ");
        concat(first.as_str(), "[spell off]")
    } else if dirty {
        to_string("[+]")
    } else if !spell_enabled {
        to_string("[spell off]")
    } else {
        String::new()
    }
}

/// The cells left for key hints in a status row `area_width` wide: less the
/// content offset and the ruler, and, beside indicators, less their length
/// in bytes (as a cell count) and a two-cell gap.
pub open spec fn spec_hint_budget(
    area_width: u16,
    content_offset: u16,
    ruler_cols: u16,
    indicators: Seq<char>,
    indicators_len: usize,
) -> int {
    let flexible = sat_sub(sat_sub(area_width as int, content_offset as int), ruler_cols as int);
    if indicators.len() == 0 {
        flexible
    } else {
        sat_sub(sat_sub(flexible, (indicators_len as u16) as int), 2)
    }
}

/// The cells left for key hints beside the given indicators.
pub fn hint_budget(area_width: u16, content_offset: u16, ruler_cols: u16, indicators: &str) -> (r: u16)
    ensures
        r == spec_hint_budget(area_width, content_offset, ruler_cols, indicators@, indicators.spec_bytes().len() as usize),
{
    let flexible = area_width.saturating_sub(content_offset).saturating_sub(ruler_cols);
    if indicators.is_empty() {
        flexible
    } else {
        let bytes = indicators.len();
        flexible.saturating_sub(bytes as u16).saturating_sub(2)
    }
}

/// The status row's middle text: empty while a command line or a
/// transient message shows; otherwise the indicators and the hints (the
/// overlay's hints when it has any), two spaces apart when both are there.
pub open spec fn spec_status_middle(
    command_line_active: bool,
    transient_shown: bool,
    indicators: Seq<char>,
    overlay_hints: Seq<char>,
    key_hints: Seq<char>,
) -> Seq<char> {
    if command_line_active || transient_shown {
        Seq::empty()
    } else {
        let base = if overlay_hints.len() > 0 { overlay_hints } else { key_hints };
        if indicators.len() == 0 {
            base
        } else if base.len() == 0 {
            indicators
        } else {
            indicators + "  "@ + base
        }
    }
}

/// Compose the status row's middle text (see `spec_status_middle`).
pub fn status_middle(
    command_line_active: bool,
    transient_shown: bool,
    indicators: &str,
    overlay_hints: &str,
    key_hints: &str,
) -> (r: String)
    ensures
        r@ == spec_status_middle(command_line_active, transient_shown, indicators@, overlay_hints@, key_hints@),
{
    if command_line_active || transient_shown {
        return String::new();
    }
    let base = if !overlay_hints.is_empty() { overlay_hints } else { key_hints };
    if indicators.is_empty() {
        to_string(base)
    } else if base.is_empty() {
        to_string(indicators)
    } else {
        let first = concat(indicators, "  ");
        concat(first.as_str(), base)
    }
}

/// The path the status row shows: the document's path, or `(new)` for a
/// document without one.
pub fn status_path_label(path: Option<String>) -> (r: String)
    ensures
        path matches Some(p) ==> r == p,
        path is None ==> r@ == "(new)"@,
{
    match path {
        Some(p) => p,
        None => to_string("(new)"),
    }
}

/// The name a tab shows: the document's path, or `untitled.md` for a
/// document without one.
pub fn tab_label(path: Option<String>) -> (r: String)
    ensures
        path matches Some(p) ==> r == p,
        path is None ==> r@ == "untitled.md"@,
{
    match path {
        Some(p) => p,
        None => to_string("untitled.md"),
    }
}

/// Where the which-key hint goes: the status row past its content offset
/// (the offset capped at the row's width).
pub fn which_key_area(status_area: Rect, content_offset: u16) -> (r: Rect)
    ensures
        ({
            let offset = if content_offset < status_area.width { content_offset } else { status_area.width };
            r == Rect {
                x: (if status_area.x + offset > u16::MAX { u16::MAX as int } else { status_area.x + offset }) as u16,
                y: status_area.y,
                width: (status_area.width - offset) as u16,
                height: status_area.height,
            }
        }),
{
    let offset = if content_offset < status_area.width { content_offset } else { status_area.width };
    Rect {
        x: status_area.x.saturating_add(offset),
        y: status_area.y,
        width: status_area.width - offset,
        height: status_area.height,
    }
}

} // verus!
