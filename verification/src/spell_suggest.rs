//! Spelling-suggestion overlay state.

use vstd::prelude::*;
use crate::keys::{clone_diagnostic, diagnostic_view, Diagnostic, KeyCodeKind, KeyInput};
use crate::text::{concat, decimal, spec_decimal, to_string};
use crate::trouble::{is_close_key, moves_down, moves_up, spec_closes, spec_moves_down, spec_moves_up, DiagnosticView};

verus! {

/// The most suggestions the overlay lists.
pub const MAX_SUGGESTIONS: usize = 9;

/// Preferred overlay width in cells.
pub const OVERLAY_WIDTH: u16 = 52;

/// Preferred overlay height in cells.
pub const OVERLAY_HEIGHT: u16 = 14;

/// The semantic result of one suggestion-overlay key transition.
#[derive(Clone, Debug, Eq, PartialEq)]
pub enum SpellSuggestAction {
    /// The overlay consumed the key without requesting App work.
    StayOpen,
    /// Close the overlay without changing the document.
    Close,
    /// Revalidate and apply this replacement.
    Apply(String),
    /// Revalidate and add the diagnostic word to the personal dictionary.
    AddWord,
}

/// The suggestion number that a digit key names, `1` to `9`, as an index.
pub open spec fn spec_digit_index(c: char) -> Option<usize> {
    if '1' <= c && c <= '9' {
        Some((c as u32 - '1' as u32) as usize)
    } else {
        None
    }
}

/// The suggestion index that a digit key names.
fn digit_index(c: char) -> (r: Option<usize>)
    ensures
        r == spec_digit_index(c),
{
    if '1' <= c && c <= '9' {
        Some((c as u32 - '1' as u32) as usize)
    } else {
        None
    }
}

/// The texts of a list of suggestions.
pub open spec fn spec_texts(s: Seq<String>) -> Seq<Seq<char>> {
    s.map_values(|x: String| x@)
}

/// One row of an overlay's list as drawn: its text and whether it is
/// highlighted.
#[derive(Debug, Clone, PartialEq, Eq)]
pub struct ListRow {
    pub text: String,
    pub highlighted: bool,
}

/// A suggestion row: the selection mark (or a blank), the one-based number
/// and the suggestion.
pub open spec fn spec_suggestion_row(index: nat, chosen: bool, suggestion: Seq<char>) -> Seq<char> {
    (if chosen { "\u{25b8}"@ } else { " "@ }) + " "@ + spec_decimal(index + 1) + ". "@ + suggestion
}

/// State owned by an open spelling-suggestion overlay.
#[derive(Debug)]
pub struct SpellSuggestState {
    diagnostic: Diagnostic,
    suggestions: Vec<String>,
    selected: Option<usize>,
}

/// One key on the suggestion overlay, from state `before` to `after` with
/// result `r`: Esc or Ctrl-C closes; j/k and the arrows move the selection
/// round the list; `a` asks to add the word; a digit or Enter asks to apply
/// that suggestion; anything else stays open. The list and the diagnostic
/// never change.
pub open spec fn spec_suggest_key(before: SpellSuggestState, after: SpellSuggestState, key: KeyInput, r: SpellSuggestAction) -> bool {
    &&& after.spec_suggestions() == before.spec_suggestions()
    &&& after.spec_diagnostic() == before.spec_diagnostic()
    &&& ({
        let n = before.spec_suggestions().len();
        let sel = before.spec_selected();
        if spec_closes(key) {
            r == SpellSuggestAction::Close && after.spec_selected() == sel
        } else if spec_moves_down(key) {
            r == SpellSuggestAction::StayOpen && after.spec_selected() == (match sel {
                Some(s) => Some(((s + 1) % (n as int)) as usize),
                None => None,
            })
        } else if spec_moves_up(key) {
            r == SpellSuggestAction::StayOpen && after.spec_selected() == (match sel {
                Some(s) => Some(((s + n - 1) % (n as int)) as usize),
                None => None,
            })
        } else if key.code.kind == KeyCodeKind::Char('a') && key.mods.is_none() {
            r == SpellSuggestAction::AddWord && after.spec_selected() == sel
        } else if key.mods.is_none() && key.code.kind is Char && spec_digit_index(
            key.code.kind->Char_0,
        ) is Some {
            let i = spec_digit_index(key.code.kind->Char_0).unwrap();
            after.spec_selected() == sel && if i < n {
                r matches SpellSuggestAction::Apply(t) && t@ == before.spec_suggestions()[i as int]
            } else {
                r == SpellSuggestAction::StayOpen
            }
        } else if key.code.kind == KeyCodeKind::Enter && key.mods.is_none() {
            after.spec_selected() == sel && match sel {
                Some(s) => r matches SpellSuggestAction::Apply(t) && t@ == before.spec_suggestions()[s as int],
                None => r == SpellSuggestAction::StayOpen,
            }
        } else {
            r == SpellSuggestAction::StayOpen && after.spec_selected() == sel
        }
    })
}

impl SpellSuggestState {
    #[verifier::type_invariant]
    spec fn wf(self) -> bool {
        &&& self.suggestions.len() <= MAX_SUGGESTIONS
        &&& (self.selected is Some) == (self.suggestions.len() > 0)
        &&& self.selected matches Some(s) ==> s < self.suggestions.len()
    }

    /// The identity of the diagnostic the overlay opened for.
    pub closed spec fn spec_diagnostic(self) -> DiagnosticView {
        diagnostic_view(self.diagnostic)
    }

    /// The listed suggestions.
    pub closed spec fn spec_suggestions(self) -> Seq<Seq<char>> {
        spec_texts(self.suggestions@)
    }

    /// The selected suggestion.
    pub closed spec fn spec_selected(self) -> Option<usize> {
        self.selected
    }

    /// An overlay listing at most the first nine suggestions, the first selected.
    pub fn new(diagnostic: Diagnostic, suggestions: Vec<String>) -> (r: Self)
        ensures
            r.spec_diagnostic() == diagnostic_view(diagnostic),
            r.spec_suggestions() == spec_texts(suggestions@).take(
                if suggestions@.len() <= 9 { suggestions@.len() as int } else { 9 },
            ),
            r.spec_selected() == (if suggestions@.len() > 0 { Some(0usize) } else { None }),
    {
        let mut suggestions = suggestions;
        let ghost given = suggestions@;
        suggestions.truncate(MAX_SUGGESTIONS);
        proof {
            assert(spec_texts(suggestions@) =~= spec_texts(given).take(
                if given.len() <= 9 { given.len() as int } else { 9 },
            ));
        }
        let selected = if suggestions.len() > 0 { Some(0) } else { None };
        SpellSuggestState { diagnostic, suggestions, selected }
    }

    /// The diagnostic the overlay opened for.
    pub fn diagnostic(&self) -> (r: &Diagnostic)
        ensures
            diagnostic_view(*r) == self.spec_diagnostic(),
    {
        &self.diagnostic
    }

    /// Apply one exclusive modal key transition.
    pub fn handle_key(&mut self, key: &KeyInput) -> (r: SpellSuggestAction)
        ensures
            spec_suggest_key(*old(self), *final(self), *key, r),
    {
        proof {
            use_type_invariant(&*self);
        }
        if is_close_key(key) {
            return SpellSuggestAction::Close;
        }
        if moves_down(key) {
            self.select_next();
            return SpellSuggestAction::StayOpen;
        }
        if moves_up(key) {
            self.select_previous();
            return SpellSuggestAction::StayOpen;
        }
        if key.code.kind == KeyCodeKind::Char('a') && key.mods.is_plain() {
            return SpellSuggestAction::AddWord;
        }
        if key.mods.is_plain() {
            if let KeyCodeKind::Char(c) = key.code.kind {
                if let Some(index) = digit_index(c) {
                    if index < self.suggestions.len() {
                        return SpellSuggestAction::Apply(self.suggestions[index].clone());
                    }
                    return SpellSuggestAction::StayOpen;
                }
            }
        }
        if key.code.kind == KeyCodeKind::Enter && key.mods.is_plain() {
            return match self.selected {
                Some(index) => SpellSuggestAction::Apply(self.suggestions[index].clone()),
                None => SpellSuggestAction::StayOpen,
            };
        }
        SpellSuggestAction::StayOpen
    }

    fn select_next(&mut self)
        ensures
            final(self).spec_suggestions() == old(self).spec_suggestions(),
            final(self).spec_diagnostic() == old(self).spec_diagnostic(),
            final(self).spec_selected() == (match old(self).spec_selected() {
                Some(s) => Some(((s + 1) % (old(self).spec_suggestions().len() as int)) as usize),
                None => None,
            }),
    {
        proof {
            use_type_invariant(&*self);
        }
        let selected = match self.selected {
            Some(s) => s,
            None => {
                return;
            },
        };
        self.selected = Some((selected + 1) % self.suggestions.len());
    }

    fn select_previous(&mut self)
        ensures
            final(self).spec_suggestions() == old(self).spec_suggestions(),
            final(self).spec_diagnostic() == old(self).spec_diagnostic(),
            final(self).spec_selected() == (match old(self).spec_selected() {
                Some(s) => Some(
                    ((s + old(self).spec_suggestions().len() - 1) % (old(
                        self,
                    ).spec_suggestions().len() as int)) as usize,
                ),
                None => None,
            }),
    {
        proof {
            use_type_invariant(&*self);
        }
        let selected = match self.selected {
            Some(s) => s,
            None => {
                return;
            },
        };
        let n = self.suggestions.len();
        self.selected = Some((selected + n - 1) % n);
    }

    /// Preferred centered geometry (width, height).
    pub fn geometry(&self) -> (r: (u16, u16))
        ensures
            r == (OVERLAY_WIDTH, OVERLAY_HEIGHT),
    {
        (OVERLAY_WIDTH, OVERLAY_HEIGHT)
    }

    /// Hint text for the bottom bar.
    pub fn hints(&self) -> (r: &'static str)
        ensures
            r@ == "j/k navigate · 1-9/Enter apply · a add · Esc close"@,
    {
        "j/k navigate · 1-9/Enter apply · a add · Esc close"
    }

    /// The selected suggestion.
    pub fn selected(&self) -> (r: Option<usize>)
        ensures
            r == self.spec_selected(),
            r matches Some(s) ==> s < self.spec_suggestions().len(),
    {
        proof {
            use_type_invariant(self);
        }
        self.selected
    }

    /// The overlay's title: the misspelled word.
    pub fn title(&self) -> (r: String)
        ensures
            r@ == " Spelling: "@ + self.spec_diagnostic().4 + " "@,
    {
        let head = concat(" Spelling: ", self.diagnostic.source_text.as_str());
        concat(head.as_str(), " ")
    }

    /// The overlay's rows: `No suggestions` for an empty list, else each
    /// suggestion numbered from one, the selected one marked and
    /// highlighted.
    pub fn rows(&self) -> (r: Vec<ListRow>)
        ensures
            self.spec_suggestions().len() == 0 ==> r@.len() == 1 && r@[0].text@ == "No suggestions"@ && !r@[0].highlighted,
            self.spec_suggestions().len() > 0 ==> r@.len() == self.spec_suggestions().len(),
            self.spec_suggestions().len() > 0 ==> forall|i: int| 0 <= i < r@.len() ==> (#[trigger] r@[i]).highlighted == (self.spec_selected() == Some(i as usize))
                && r@[i].text@ == spec_suggestion_row(i as nat, self.spec_selected() == Some(i as usize), self.spec_suggestions()[i]),
    {
        proof {
            use_type_invariant(self);
        }
        let mut rows: Vec<ListRow> = Vec::new();
        if self.suggestions.len() == 0 {
            rows.push(ListRow { text: to_string("No suggestions"), highlighted: false });
            return rows;
        }
        let mut i: usize = 0;
        while i < self.suggestions.len()
            invariant
                i <= self.suggestions@.len(),
                self.suggestions@.len() <= MAX_SUGGESTIONS,
                rows@.len() == i,
                forall|k: int| 0 <= k < i ==> (#[trigger] rows@[k]).highlighted == (self.selected == Some(k as usize))
                    && rows@[k].text@ == spec_suggestion_row(k as nat, self.selected == Some(k as usize), self.suggestions@[k]@),
            decreases self.suggestions.len() - i,
        {
            let chosen = match self.selected {
                Some(s) => s == i,
                None => false,
            };
            let marker = if chosen { "\u{25b8} " } else { "  " };
            let number = decimal(i + 1);
            let head = concat(marker, number.as_str());
            let head = concat(head.as_str(), ". ");
            let text = concat(head.as_str(), self.suggestions[i].as_str());
            proof {
                assert(marker@ == (if chosen { "\u{25b8}"@ } else { " "@ }) + " "@) by {
                    reveal_strlit("\u{25b8} ");
                    reveal_strlit("\u{25b8}");
                    reveal_strlit("  ");
                    reveal_strlit(" ");
                }
                assert(text@ =~= spec_suggestion_row(i as nat, chosen, self.suggestions@[i as int]@));
            }
            rows.push(ListRow { text, highlighted: chosen });
            proof {
                assert(rows@[i as int].text@ == spec_suggestion_row(i as nat, self.selected == Some(i), self.suggestions@[i as int]@));
            }
            i = i + 1;
        }
        rows
    }

    /// The listed suggestions.
    pub fn suggestions(&self) -> (r: &[String])
        ensures
            spec_texts(r@) == self.spec_suggestions(),
            r@.len() <= MAX_SUGGESTIONS,
    {
        proof {
            use_type_invariant(self);
        }
        self.suggestions.as_slice()
    }
}

} // verus!
