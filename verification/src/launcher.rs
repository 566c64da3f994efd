//! Launchers: the front ends that show entries and report what the user picks.

use vstd::prelude::*;
use crate::searcher::Entry;

pub mod rofi;

verus! {

/// the text that the user entered so far
pub struct Input {
    _input: String,
}

/// What happened in the launcher.
pub enum Event<'a> {
    InputChange(Input),
    SelectEntry(&'a Entry),
}

/// Why a launcher could not make sense of what it was told.
#[derive(Debug, PartialEq, Eq, Structural)]
pub enum LauncherError {
    /// An entry was selected without data naming it.
    ExpectedData,
    /// An entry was selected by a number that names no entry.
    InvalidEntryId,
}

/// A front end. `wait_step` takes one message from it and says whether it ends
/// the wait, with which event; `update` hands it the entries to show and gives
/// what to send it.
pub trait Launcher<'a> {
    type Message;

    type Reply;

    fn wait_step(&'a self, message: &Self::Message) -> Result<Option<Event<'a>>, LauncherError>;

    fn update(&mut self, entries: Vec<Entry>) -> Self::Reply;
}

} // verus!
