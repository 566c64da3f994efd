//! Blocks: named sources of launcher lines, each of which runs its own lines.

use vstd::prelude::*;
use crate::desktop_file::opt_view;
use crate::desktop_lines::{all_decodable, DesktopFile, LineModel};
use crate::launch::{Launch, RunError};
use self::desktop_entry::DesktopEntryBlock;

pub mod desktop_entry;

verus! {

/// What a block keeps in a line to run it later.
pub enum BlockLineData {
    DesktopEntryData(desktop_entry::LineData),
}

/// One line offered by a block.
pub struct BlockLine {
    pub text: String,
    pub icon: Option<String>,
    pub data: BlockLineData,
}

/// The text, icon and command of a block line.
pub open spec fn block_line(l: BlockLine) -> LineModel {
    (
        l.text@,
        opt_view(l.icon),
        match l.data {
            BlockLineData::DesktopEntryData(d) => d.cmd@,
        },
    )
}

pub open spec fn block_lines(ls: Seq<BlockLine>) -> Seq<LineModel> {
    ls.map_values(|l: BlockLine| block_line(l))
}

/// A source of lines; `files` are the desktop files found on disk.
pub trait Block {
    fn get_lines(&mut self, input: String, files: &Vec<DesktopFile>) -> Vec<BlockLine>
        requires
            all_decodable(files@),
    ;

    fn run(&self, entry: &BlockLine) -> Result<Launch, RunError>;
}

/// The blocks there are.
pub enum BlockKind {
    DesktopEntryBlock(DesktopEntryBlock),
}

/// All blocks by name, with nothing seen yet: `desktop_entry`.
pub fn all_blocks() -> (r: Vec<(String, BlockKind)>)
    ensures
        r@.len() == 1,
        r@[0].0@ == "desktop_entry"@,
        r@[0].1 matches BlockKind::DesktopEntryBlock(b) && b.seen() == Seq::<
            (Seq<char>, Seq<char>),
        >::empty(),
{
    vec![("desktop_entry".to_owned(), BlockKind::DesktopEntryBlock(DesktopEntryBlock::default()))]
}

} // verus!
