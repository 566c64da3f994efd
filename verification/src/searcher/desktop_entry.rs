//! The searcher of installed applications, from their `.desktop` files.

use vstd::prelude::*;
use crate::desktop_file::DesktopEntryInfo;
use crate::desktop_lines::{
    distinct_ids, has_id,
    all_decodable, desktop_fold, desktop_lines, lines_view, reads_match, DesktopFile,
    DesktopLine, SeenEntries, line_view,
};
use crate::launch::{run_view, shell_launch, shell_launch_of, Launch, RunError};
use super::{desktop_run, entry_line, entry_lines, Entry, EntryData, Searcher, SearcherId};

verus! {

/// What an application entry keeps: its `Exec` command line.
pub struct LineData {
    pub cmd: String,
}

impl LineData {
    /// What running the command line starts: `/bin/sh -c` with the command, its
    /// field codes taken out.
    pub fn exec(&self) -> (r: Launch)
        ensures
            r@ == shell_launch_of(self.cmd@),
    {
        shell_launch(self.cmd.as_str())
    }
}

/// Runs a desktop entry; any other entry is refused.
pub fn run_desktop_entry(entry: &Entry) -> (r: Result<Launch, RunError>)
    ensures
        run_view(r) == desktop_run(*entry),
{
    match &entry.data {
        EntryData::DesktopEntry(data) => Ok(data.exec()),
        _ => Err(RunError::InvalidEntry),
    }
}

/// The searcher of installed applications. It remembers the application ids it
/// has given entries for, with their paths, and gives each id once.
pub struct DesktopEntrySearcher {
    desktop_entries: SeenEntries,
}

impl DesktopEntrySearcher {
    /// The application ids given so far, in order, with their paths.
    pub closed spec fn seen(&self) -> Seq<(Seq<char>, Seq<char>)> {
        self.desktop_entries@
    }
}

impl Default for DesktopEntrySearcher {
    fn default() -> (r: Self)
        ensures
            r.seen() == Seq::<(Seq<char>, Seq<char>)>::empty(),
    {
        DesktopEntrySearcher { desktop_entries: SeenEntries::new() }
    }
}

/// The entries made of desktop lines, each with this parent.
pub open spec fn desktop_entries_from(es: Seq<Entry>, me: SearcherId) -> bool {
    forall|i: int|
        0 <= i < es.len() ==> (#[trigger] es[i]).parent == me && es[i].data is DesktopEntry
}

fn entries_of(lines: &Vec<DesktopLine>, me: SearcherId) -> (r: Vec<Entry>)
    ensures
        entry_lines(r@) == lines_view(lines@),
        r@.len() == lines@.len(),
        desktop_entries_from(r@, me),
{
    let mut r: Vec<Entry> = Vec::new();
    let n: usize = lines.len();
    for i in 0..n
        invariant
            n == lines@.len(),
            entry_lines(r@) == lines_view(lines@.take(i as int)),
            desktop_entries_from(r@, me),
    {
        let l = &lines[i];
        let icon = match &l.icon {
            Some(s) => Some(s.clone()),
            None => None,
        };
        let e = Entry {
            text: l.text.clone(),
            icon,
            data: EntryData::DesktopEntry(LineData { cmd: l.cmd.clone() }),
            parent: me,
        };
        let ghost before = r@;
        r.push(e);
        assert(entry_lines(r@) =~= lines_view(lines@.take(i + 1))) by {
            assert(r@ =~= before.push(e));
            assert(lines@.take(i + 1) =~= lines@.take(i as int).push(lines@[i as int]));
            assert(entry_line(e) == line_view(lines@[i as int]));
            assert(entry_lines(before.push(e)) =~= entry_lines(before).push(entry_line(e)));
            assert(lines_view(lines@.take(i as int).push(lines@[i as int])) =~= lines_view(
                lines@.take(i as int),
            ).push(line_view(lines@[i as int])));
        }
    }
    assert(lines@.take(n as int) =~= lines@);
    r
}

impl Searcher for DesktopEntrySearcher {
    /// One entry for each file that is a shown application with a name and a
    /// command and whose id was not given before; those ids are then given.
    fn get_lines(&mut self, me: SearcherId, input: String, files: &Vec<DesktopFile>) -> (r: Vec<
        Entry,
    >)
        ensures
            exists|reads: Seq<Option<DesktopEntryInfo>>|
                #[trigger] reads_match(files@, reads) && desktop_fold(
                    old(self).seen(),
                    files@,
                    reads,
                ) == (final(self).seen(), entry_lines(r@)),
            distinct_ids(final(self).seen()),
            final(self).seen().len() == old(self).seen().len() + r@.len(),
            final(self).seen().subrange(0, old(self).seen().len() as int) == old(self).seen(),
            forall|k: int|
                old(self).seen().len() <= k < final(self).seen().len() ==> !has_id(
                    old(self).seen(),
                    (#[trigger] final(self).seen()[k]).0,
                ),
            desktop_entries_from(r@, me),
    {
        let lines = desktop_lines(&mut self.desktop_entries, files);
        let r = entries_of(&lines, me);
        assert(lines_view(lines@).len() == lines@.len());
        r
    }

    /// Runs a desktop entry; any other entry is refused.
    fn run(&self, entry: &Entry) -> (r: Result<Launch, RunError>)
        ensures
            run_view(r) == desktop_run(*entry),
    {
        run_desktop_entry(entry)
    }
}

} // verus!
