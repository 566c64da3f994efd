//! Searchers: sources of launcher entries, each of which knows how to run the
//! entries it gave.

use vstd::prelude::*;
use crate::desktop_file::opt_view;
use crate::desktop_file::DesktopEntryInfo;
use crate::desktop_lines::{all_decodable, desktop_fold, distinct_ids, reads_match, DesktopFile, LineModel};
use crate::launch::{open_launch_of, run_view, shell_launch_of, Launch, LaunchModel, RunError};
use self::desktop_entry::{desktop_entries_from, DesktopEntrySearcher};
use self::file_search::{file_search_lines, FileSearcher};

pub mod desktop_entry;
pub mod file_search;

verus! {

/// Which searcher an entry came from, and so which one runs it.
#[derive(Clone, Copy, Debug, PartialEq, Eq, Structural)]
pub enum SearcherId {
    DesktopEntry,
    FileSearch,
}

/// What a searcher keeps in an entry to run it later.
pub enum EntryData {
    DesktopEntry(desktop_entry::LineData),
    FileSearch(file_search::LineData),
}

/// One line of the launcher.
pub struct Entry {
    pub text: String,
    pub icon: Option<String>,
    pub data: EntryData,
    pub parent: SearcherId,
}

/// The text, icon and kept string (command or file) of an entry.
pub open spec fn entry_line(e: Entry) -> LineModel {
    (
        e.text@,
        opt_view(e.icon),
        match e.data {
            EntryData::DesktopEntry(d) => d.cmd@,
            EntryData::FileSearch(f) => f.file_path@,
        },
    )
}

pub open spec fn entry_lines(es: Seq<Entry>) -> Seq<LineModel> {
    es.map_values(|e: Entry| entry_line(e))
}

/// What the desktop-entry searcher does with an entry: it runs the command of a
/// desktop entry and refuses anything else.
pub open spec fn desktop_run(e: Entry) -> Result<LaunchModel, RunError> {
    match e.data {
        EntryData::DesktopEntry(d) => Ok(shell_launch_of(d.cmd@)),
        _ => Err(RunError::InvalidEntry),
    }
}

/// What the file searcher does with an entry: it opens the file of a file entry
/// and refuses anything else.
pub open spec fn file_run(e: Entry) -> Result<LaunchModel, RunError> {
    match e.data {
        EntryData::FileSearch(f) => Ok(open_launch_of(f.file_path@)),
        _ => Err(RunError::InvalidEntryData),
    }
}

/// Running an entry is running it by the searcher it came from.
pub open spec fn entry_run(e: Entry) -> Result<LaunchModel, RunError> {
    match e.parent {
        SearcherId::DesktopEntry => desktop_run(e),
        SearcherId::FileSearch => file_run(e),
    }
}

impl Entry {
    /// Runs the entry by the searcher it came from.
    pub fn run(&self) -> (r: Result<Launch, RunError>)
        ensures
            run_view(r) == entry_run(*self),
    {
        match self.parent {
            SearcherId::DesktopEntry => desktop_entry::run_desktop_entry(self),
            SearcherId::FileSearch => file_search::run_file_entry(self),
        }
    }
}

/// A source of entries. `me` is the id its entries carry as their parent; `files`
/// are the desktop files found on disk, for the searchers that read them.
pub trait Searcher {
    fn get_lines(&mut self, me: SearcherId, input: String, files: &Vec<DesktopFile>) -> Vec<Entry>
        requires
            all_decodable(files@),
    ;

    fn run(&self, entry: &Entry) -> Result<Launch, RunError>;
}

/// The searchers there are.
pub enum SearcherKind {
    DesktopEntry(DesktopEntrySearcher),
    FileSearch(FileSearcher),
}

impl SearcherKind {
    /// The id that the entries of this searcher carry.
    pub fn id(&self) -> (r: SearcherId)
        ensures
            r == (match self {
                SearcherKind::DesktopEntry(_) => SearcherId::DesktopEntry,
                SearcherKind::FileSearch(_) => SearcherId::FileSearch,
            }),
    {
        match self {
            SearcherKind::DesktopEntry(_) => SearcherId::DesktopEntry,
            SearcherKind::FileSearch(_) => SearcherId::FileSearch,
        }
    }
}

impl SearcherKind {
    /// The entries of this searcher, each carrying its id as parent.
    pub fn get_lines(&mut self, input: String, files: &Vec<DesktopFile>) -> (r: Vec<Entry>)
        requires
            all_decodable(files@),
        ensures
            match *old(self) {
                SearcherKind::DesktopEntry(s0) => {
                    &&& *final(self) matches SearcherKind::DesktopEntry(s1)
                    &&& exists|reads: Seq<Option<DesktopEntryInfo>>|
                        #[trigger] reads_match(files@, reads) && desktop_fold(
                            s0.seen(),
                            files@,
                            reads,
                        ) == (s1.seen(), entry_lines(r@))
                    &&& distinct_ids(s1.seen())
                    &&& desktop_entries_from(r@, SearcherId::DesktopEntry)
                },
                SearcherKind::FileSearch(_) => {
                    &&& *final(self) is FileSearch
                    &&& file_search_lines(r@, SearcherId::FileSearch)
                },
            },
    {
        match self {
            SearcherKind::DesktopEntry(s) => s.get_lines(SearcherId::DesktopEntry, input, files),
            SearcherKind::FileSearch(s) => s.get_lines(SearcherId::FileSearch, input, files),
        }
    }
}

/// All searchers, with nothing seen yet: the desktop-entry searcher, then the
/// file searcher.
pub fn all_searchers() -> (r: Vec<SearcherKind>)
    ensures
        r@.len() == 2,
        r@[0] matches SearcherKind::DesktopEntry(s) && s.seen() == Seq::<
            (Seq<char>, Seq<char>),
        >::empty(),
        r@[1] is FileSearch,
{
    vec![
        SearcherKind::DesktopEntry(DesktopEntrySearcher::default()),
        SearcherKind::FileSearch(FileSearcher::default()),
    ]
}

/// An entry runs without refusal when it is of the kind its parent searcher
/// gives: a desktop entry of the desktop-entry searcher runs its command, a file
/// entry of the file searcher opens its file.
pub proof fn law_entries_run_by_their_searcher(e: Entry)
    requires
        (e.parent == SearcherId::DesktopEntry && e.data is DesktopEntry) || (e.parent
            == SearcherId::FileSearch && e.data is FileSearch),
    ensures
        entry_run(e) == match e.data {
            EntryData::DesktopEntry(d) => Ok::<LaunchModel, RunError>(shell_launch_of(d.cmd@)),
            EntryData::FileSearch(f) => Ok::<LaunchModel, RunError>(open_launch_of(f.file_path@)),
        },
{
}

} // verus!
