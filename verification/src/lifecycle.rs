//! Closed App-owned lifecycle requests.
//!
//! Every target-relative request captures exactly one tab index. A save
//! continuation is relative to that same target, so the type cannot encode
//! "save tab A, close tab B".

use vstd::prelude::*;

verus! {

/// What happens to the saved tab after a successful save.
#[derive(Debug, Clone, Copy, PartialEq, Eq, Structural)]
pub enum SaveContinuation {
    StayOpen,
    CloseSavedTab,
}

/// A request to save one tab.
#[derive(Debug, Clone, PartialEq, Eq)]
pub struct SaveRequest {
    pub target: usize,
    pub path: Option<String>,
    pub force: bool,
    pub retarget: bool,
    pub continuation: SaveContinuation,
}

/// The plain-value form of a save request.
pub type SaveRequestView = (usize, Option<Seq<char>>, bool, bool, SaveContinuation);

/// The plain-value form of an optional path.
pub open spec fn option_text_view(p: Option<String>) -> Option<Seq<char>> {
    match p {
        Some(s) => Some(s@),
        None => None,
    }
}

/// A duplicate of an optional text.
pub fn clone_option_text(p: &Option<String>) -> (r: Option<String>)
    ensures
        option_text_view(r) == option_text_view(*p),
{
    match p {
        Some(s) => Some(s.clone()),
        None => None,
    }
}

impl View for SaveRequest {
    type V = SaveRequestView;

    open spec fn view(&self) -> SaveRequestView {
        (self.target, option_text_view(self.path), self.force, self.retarget, self.continuation)
    }
}

impl SaveRequest {
    /// A duplicate of this request.
    pub fn duplicate(&self) -> (r: SaveRequest)
        ensures
            r@ == self@,
    {
        SaveRequest {
            target: self.target,
            path: clone_option_text(&self.path),
            force: self.force,
            retarget: self.retarget,
            continuation: self.continuation,
        }
    }
}

/// What a close of a modified tab does without `force`.
#[derive(Debug, Clone, Copy, PartialEq, Eq, Structural)]
pub enum DirtyClosePolicy {
    Confirm,
    Refuse,
}

/// A request to close one tab.
#[derive(Debug, Clone, Copy, PartialEq, Eq, Structural)]
pub struct CloseTabRequest {
    pub target: usize,
    pub force: bool,
    pub dirty_policy: DirtyClosePolicy,
}

/// Every lifecycle request the App executes.
#[derive(Debug, Clone, PartialEq, Eq)]
pub enum LifecycleAction {
    Save(SaveRequest),
    CloseTab(CloseTabRequest),
    ReplaceTab { target: usize, path: String, force: bool },
    OpenTab { path: String },
    QuitAll { force: bool },
}

} // verus!
