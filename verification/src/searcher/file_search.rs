//! The file searcher: it offers one fixed file and opens it.

use vstd::prelude::*;
use crate::desktop_lines::DesktopFile;
use crate::launch::{open_launch, run_view, Launch, RunError};
use super::{file_run, Entry, EntryData, Searcher, SearcherId};

verus! {

/// The file searcher.
pub struct FileSearcher {}

impl Default for FileSearcher {
    fn default() -> (r: Self) {
        FileSearcher {  }
    }
}

/// What a file entry keeps: the file's path.
pub struct LineData {
    pub file_path: String,
}

/// Opens the file of a file entry; any other entry is refused.
pub fn run_file_entry(entry: &Entry) -> (r: Result<Launch, RunError>)
    ensures
        run_view(r) == file_run(*entry),
{
    match &entry.data {
        EntryData::FileSearch(data) => Ok(open_launch(data.file_path.as_str())),
        _ => Err(RunError::InvalidEntryData),
    }
}

/// The lines of the file searcher: the one entry `hi` for a fixed file.
pub open spec fn file_search_lines(r: Seq<Entry>, me: SearcherId) -> bool {
    &&& r.len() == 1
    &&& r[0].text@ == "hi"@
    &&& r[0].icon is None
    &&& r[0].data matches EntryData::FileSearch(d) && d.file_path@
        == "/home/svl/Downloads/Limbo/Uvod.pdf"@
    &&& r[0].parent == me
}

impl Searcher for FileSearcher {
    /// The one entry `hi`, for the file `/home/svl/Downloads/Limbo/Uvod.pdf`.
    fn get_lines(&mut self, me: SearcherId, input: String, files: &Vec<DesktopFile>) -> (r: Vec<
        Entry,
    >)
        ensures
            file_search_lines(r@, me),
    {
        vec![
            Entry {
                text: "hi".to_owned(),
                icon: None,
                data: EntryData::FileSearch(
                    LineData { file_path: "/home/svl/Downloads/Limbo/Uvod.pdf".to_owned() },
                ),
                parent: me,
            },
        ]
    }

    /// Opens the file of a file entry; any other entry is refused.
    fn run(&self, entry: &Entry) -> (r: Result<Launch, RunError>)
        ensures
            run_view(r) == file_run(*entry),
    {
        run_file_entry(entry)
    }
}

} // verus!
