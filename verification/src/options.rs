use vstd::prelude::*;

verus! {

/// How events are asked to word their messages. The library hands the value
/// on to the event and reads nothing from it.
#[derive(Debug)]
pub struct DiagnosticOptions {
    /// The directory that paths in a message are shown relative to. When it
    /// is empty, paths are shown as the event holds them.
    pub cwd: String,
}

/// What a [`DiagnosticOptions`] value stands for in contracts.
pub struct DiagnosticOptionsView {
    pub cwd: Seq<char>,
}

impl View for DiagnosticOptions {
    type V = DiagnosticOptionsView;

    open spec fn view(&self) -> DiagnosticOptionsView {
        DiagnosticOptionsView { cwd: self.cwd@ }
    }
}

impl DiagnosticOptions {
    /// The options that are used where the caller gives none: an empty
    /// `cwd`.
    pub open spec fn default_view() -> DiagnosticOptionsView {
        DiagnosticOptionsView { cwd: Seq::empty() }
    }
}

impl Clone for DiagnosticOptions {
    fn clone(&self) -> (options: Self)
        ensures
            options@ == self@,
    {
        DiagnosticOptions { cwd: self.cwd.clone() }
    }
}

impl Default for DiagnosticOptions {
    fn default() -> (options: Self)
        ensures
            options@ == DiagnosticOptions::default_view(),
    {
        DiagnosticOptions { cwd: String::new() }
    }
}

} // verus!
