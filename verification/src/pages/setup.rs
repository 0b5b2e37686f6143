//! First-run storage selection: the page's state and the steps that move it.
//! The directory picker and the opening of a storage happen around it; the
//! page decides what to do next and what to tell the user.
use vstd::prelude::*;

use crate::text::{push_str, str_eq, string_of};

verus! {

/// What the user chose in the directory picker.
pub enum PickOutcome {
    /// A directory was chosen.
    Picked(String),
    /// The picker was dismissed.
    Dismissed,
    /// The picker could not be shown.
    Failed,
}

/// What follows a press of the continue button.
#[derive(Debug, PartialEq, Eq)]
pub enum SetupAction {
    /// Nothing: a storage is being opened, or no directory is chosen.
    Wait,
    /// The chosen directory is the current storage: go straight to play.
    Enter,
    /// Open the storage in this directory.
    Open(String),
}

/// How opening the chosen storage went.
pub enum OpenOutcome {
    /// It was opened and made the default storage.
    Registered,
    /// It was opened but could not be registered.
    NotRegistered,
    /// It could not be opened, for the given reason.
    Failed(String),
}

/// The setup page's state.
pub struct SetupPage {
    pub directory: Option<String>,
    pub busy: bool,
    pub error: Option<String>,
}

/// The abstract state of the setup page.
pub struct SetupView {
    pub directory: Option<Seq<char>>,
    pub busy: bool,
    pub error: Option<Seq<char>>,
}

/// The view of an optional text.
pub open spec fn text_view(t: Option<String>) -> Option<Seq<char>> {
    match t {
        Some(s) => Some(s@),
        None => None,
    }
}

impl View for SetupPage {
    type V = SetupView;

    open spec fn view(&self) -> SetupView {
        SetupView { directory: text_view(self.directory), busy: self.busy, error: text_view(self.error) }
    }
}

/// The message shown when the picker cannot be shown.
pub open spec fn picker_failed() -> Seq<char> {
    "Could not open the directory picker. Try again."@
}

/// The message shown when an opened storage cannot be registered.
pub open spec fn not_registered() -> Seq<char> {
    "Could not register the game directory."@
}

impl SetupPage {
    /// The page as it opens: the current storage's directory, if any, chosen.
    pub fn new(current_root: Option<String>) -> (r: Self)
        ensures
            r@ == (SetupView { directory: text_view(current_root), busy: false, error: None }),
    {
        SetupPage { directory: current_root, busy: false, error: None }
    }

    /// Takes in what the picker returned: a chosen directory replaces the
    /// previous choice and clears the message; a dismissal changes nothing; a
    /// failure says so.
    pub fn picked(&mut self, outcome: PickOutcome)
        ensures
            final(self)@.busy == old(self)@.busy,
            match outcome {
                PickOutcome::Picked(p) => final(self)@.directory == Some(p@) && final(self)@.error is None,
                PickOutcome::Dismissed => final(self)@ == old(self)@,
                PickOutcome::Failed => final(self)@.directory == old(self)@.directory
                    && final(self)@.error == Some(picker_failed()),
            },
    {
        match outcome {
            PickOutcome::Picked(path) => {
                self.directory = Some(path);
                self.error = None;
            },
            PickOutcome::Dismissed => {},
            PickOutcome::Failed => {
                self.error = Some("Could not open the directory picker. Try again.".to_owned());
            },
        }
    }

    /// Whether the continue button is enabled.
    pub fn can_continue(&self) -> (r: bool)
        ensures
            r == (self@.directory is Some && !self@.busy),
    {
        self.directory.is_some() && !self.busy
    }

    /// A press of the continue button, given the current storage's directory:
    /// nothing while busy or without a choice; straight to play when the
    /// choice is the current storage; else the storage is opened, the page
    /// turns busy and the message is cleared.
    pub fn continue_setup(&mut self, current_root: Option<&str>) -> (r: SetupAction)
        ensures
            old(self)@.busy || old(self)@.directory is None ==> (r == SetupAction::Wait && final(self)@ == old(self)@),
            !old(self)@.busy ==> (old(self)@.directory matches Some(d) ==> {
                if current_root matches Some(c) && c@ == d {
                    r == SetupAction::Enter && final(self)@ == old(self)@
                } else {
                    (r matches SetupAction::Open(p) && p@ == d) && final(self)@ == (SetupView {
                        directory: old(self)@.directory,
                        busy: true,
                        error: None,
                    })
                }
            }),
    {
        if self.busy {
            return SetupAction::Wait;
        }
        let directory = match &self.directory {
            Some(d) => d.clone(),
            None => return SetupAction::Wait,
        };
        let same = match current_root {
            Some(c) => str_eq(c, directory.as_str()),
            None => false,
        };
        if same {
            return SetupAction::Enter;
        }
        self.busy = true;
        self.error = None;
        SetupAction::Open(directory)
    }

    /// Takes in how opening the storage went: the page is no longer busy, and
    /// a failure is explained.
    pub fn opened(&mut self, outcome: OpenOutcome)
        ensures
            final(self)@.directory == old(self)@.directory,
            !final(self)@.busy,
            match outcome {
                OpenOutcome::Registered => final(self)@.error == old(self)@.error,
                OpenOutcome::NotRegistered => final(self)@.error == Some(not_registered()),
                OpenOutcome::Failed(reason) => final(self)@.error == Some(
                    "Could not open this directory: "@ + reason@,
                ),
            },
    {
        self.busy = false;
        match outcome {
            OpenOutcome::Registered => {},
            OpenOutcome::NotRegistered => {
                self.error = Some("Could not register the game directory.".to_owned());
            },
            OpenOutcome::Failed(reason) => {
                let mut out: Vec<char> = Vec::new();
                push_str(&mut out, "Could not open this directory: ");
                push_str(&mut out, reason.as_str());
                self.error = Some(string_of(&out));
            },
        }
    }
}

} // verus!
