//! The block of installed applications, from their `.desktop` files.

use vstd::prelude::*;
use crate::desktop_file::DesktopEntryInfo;
use crate::desktop_lines::{
    distinct_ids, has_id,
    desktop_fold, desktop_lines, line_view, lines_view, reads_match, DesktopFile, DesktopLine,
    SeenEntries,
};
use crate::launch::{run_view, shell_launch, shell_launch_of, Launch, RunError};
use super::{block_line, block_lines, Block, BlockLine, BlockLineData};

verus! {

/// What an application line keeps: its `Exec` command line.
pub struct LineData {
    pub cmd: String,
}

impl LineData {
    /// What running the command line starts: `/bin/sh -c` with the command, its
    /// field codes taken out.
    pub fn exec(&self) -> (r: Launch)
        ensures
            r@ == shell_launch_of(self.cmd@),
    {
        shell_launch(self.cmd.as_str())
    }
}

/// The block of installed applications. It remembers the application ids it has
/// given lines for, with their paths, and gives each id once.
pub struct DesktopEntryBlock {
    desktop_entries: SeenEntries,
}

impl DesktopEntryBlock {
    /// The application ids given so far, in order, with their paths.
    pub closed spec fn seen(&self) -> Seq<(Seq<char>, Seq<char>)> {
        self.desktop_entries@
    }
}

impl Default for DesktopEntryBlock {
    fn default() -> (r: Self)
        ensures
            r.seen() == Seq::<(Seq<char>, Seq<char>)>::empty(),
    {
        DesktopEntryBlock { desktop_entries: SeenEntries::new() }
    }
}

fn block_lines_of(lines: &Vec<DesktopLine>) -> (r: Vec<BlockLine>)
    ensures
        block_lines(r@) == lines_view(lines@),
        r@.len() == lines@.len(),
{
    let mut r: Vec<BlockLine> = Vec::new();
    let n: usize = lines.len();
    for i in 0..n
        invariant
            n == lines@.len(),
            block_lines(r@) == lines_view(lines@.take(i as int)),
    {
        let l = &lines[i];
        let icon = match &l.icon {
            Some(s) => Some(s.clone()),
            None => None,
        };
        let b = BlockLine {
            text: l.text.clone(),
            icon,
            data: BlockLineData::DesktopEntryData(LineData { cmd: l.cmd.clone() }),
        };
        let ghost before = r@;
        r.push(b);
        assert(block_lines(r@) =~= lines_view(lines@.take(i + 1))) by {
            assert(r@ =~= before.push(b));
            assert(lines@.take(i + 1) =~= lines@.take(i as int).push(lines@[i as int]));
            assert(block_line(b) == line_view(lines@[i as int]));
            assert(block_lines(before.push(b)) =~= block_lines(before).push(block_line(b)));
            assert(lines_view(lines@.take(i as int).push(lines@[i as int])) =~= lines_view(
                lines@.take(i as int),
            ).push(line_view(lines@[i as int])));
        }
    }
    assert(lines@.take(n as int) =~= lines@);
    r
}

impl Block for DesktopEntryBlock {
    /// One line for each file that is a shown application with a name and a
    /// command and whose id was not given before; those ids are then given.
    fn get_lines(&mut self, input: String, files: &Vec<DesktopFile>) -> (r: Vec<BlockLine>)
        ensures
            exists|reads: Seq<Option<DesktopEntryInfo>>|
                #[trigger] reads_match(files@, reads) && desktop_fold(
                    old(self).seen(),
                    files@,
                    reads,
                ) == (final(self).seen(), block_lines(r@)),
            distinct_ids(final(self).seen()),
            final(self).seen().len() == old(self).seen().len() + r@.len(),
            final(self).seen().subrange(0, old(self).seen().len() as int) == old(self).seen(),
            forall|k: int|
                old(self).seen().len() <= k < final(self).seen().len() ==> !has_id(
                    old(self).seen(),
                    (#[trigger] final(self).seen()[k]).0,
                ),
    {
        let lines = desktop_lines(&mut self.desktop_entries, files);
        assert(lines_view(lines@).len() == lines@.len());
        block_lines_of(&lines)
    }

    /// Runs the command of the line.
    fn run(&self, entry: &BlockLine) -> (r: Result<Launch, RunError>)
        ensures
            run_view(r) == Ok::<_, RunError>(
                shell_launch_of(
                    match entry.data {
                        BlockLineData::DesktopEntryData(d) => d.cmd@,
                    },
                ),
            ),
    {
        match &entry.data {
            BlockLineData::DesktopEntryData(data) => Ok(data.exec()),
        }
    }
}

} // verus!
