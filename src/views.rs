//! Which view the user interface shows, and the state of the search view.

use vstd::prelude::*;

verus! {

/// The view on display.
#[derive(Debug, Clone, Copy, PartialEq, Eq, Structural)]
pub enum ViewState {
    Searching,
    Main,
}

impl Default for ViewState {
    fn default() -> (r: ViewState)
        ensures
            r == ViewState::Main,
    {
        ViewState::Main
    }
}

/// A message that the search view handles.
pub enum SearchMessage {
    /// The filter text was edited.
    FilterTextChanged(String),
    /// The filter text is to be cleared.
    ClearFilterText,
    /// Case sensitivity was switched.
    FilterCaseSensitivityChanged(bool),
    /// Regex matching was switched.
    FilterRegexChanged(bool),
}

/// What the search view asks for after handling a message.
pub enum Followup {
    /// Show this view.
    UpdateViewState(ViewState),
    /// Handle a change of the filter text to this value.
    FilterTextChanged(String),
}

/// The settings of the search view.
#[derive(Debug, Clone)]
pub struct Searching {
    pub filter: String,
    pub case_sensitive: bool,
    pub regex_sensitive: bool,
}

/// The view that a filter text calls for: the main view when it is empty,
/// else the search view.
pub open spec fn view_for(filter: Seq<char>) -> ViewState {
    if filter.len() == 0 {
        ViewState::Main
    } else {
        ViewState::Searching
    }
}

/// What handling `message` does: `before` and `after` are the settings
/// before and after, `r` what is asked for next. The settings change as the
/// message says; a new filter text asks for the view that it calls for;
/// clearing the filter asks for an empty filter text.
pub open spec fn searching_update(before: Searching, message: SearchMessage, after: Searching, r: Option<Followup>) -> bool {
    match message {
        SearchMessage::FilterTextChanged(text) => {
            &&& after.filter@ == text@
            &&& after.case_sensitive == before.case_sensitive
            &&& after.regex_sensitive == before.regex_sensitive
            &&& r == Some(Followup::UpdateViewState(view_for(text@)))
        },
        SearchMessage::ClearFilterText => {
            &&& after == before
            &&& r is Some && r->Some_0 is FilterTextChanged
            &&& r->Some_0->FilterTextChanged_0@.len() == 0
        },
        SearchMessage::FilterCaseSensitivityChanged(b) => {
            &&& after.filter == before.filter
            &&& after.case_sensitive == b
            &&& after.regex_sensitive == before.regex_sensitive
            &&& r is None
        },
        SearchMessage::FilterRegexChanged(b) => {
            &&& after.filter == before.filter
            &&& after.case_sensitive == before.case_sensitive
            &&& after.regex_sensitive == b
            &&& r is None
        },
    }
}

impl Default for Searching {
    fn default() -> (r: Searching)
        ensures
            r.filter@.len() == 0,
            !r.case_sensitive,
            !r.regex_sensitive,
    {
        Searching { filter: String::new(), case_sensitive: false, regex_sensitive: false }
    }
}

impl Searching {
    /// The title of the search view.
    pub fn title(&self) -> (r: String)
        ensures
            r@ == "Searching logs..."@,
    {
        let r = "Searching logs...".to_string();
        proof {
            vstd::string::to_string_from_display_ensures_for_str("Searching logs...", r);
        }
        r
    }

    /// Handles `message`, as [`searching_update`] says.
    pub fn update(&mut self, message: SearchMessage) -> (r: Option<Followup>)
        ensures
            searching_update(*old(self), message, *final(self), r),
    {
        match message {
            SearchMessage::FilterTextChanged(text) => {
                self.filter = text;
                if self.filter.as_str().is_empty() {
                    Some(Followup::UpdateViewState(ViewState::Main))
                } else {
                    Some(Followup::UpdateViewState(ViewState::Searching))
                }
            },
            SearchMessage::ClearFilterText => Some(Followup::FilterTextChanged(String::new())),
            SearchMessage::FilterCaseSensitivityChanged(b) => {
                self.case_sensitive = b;
                None
            },
            SearchMessage::FilterRegexChanged(b) => {
                self.regex_sensitive = b;
                None
            },
        }
    }
}

} // verus!
