use desktop_launcher::block::{all_blocks, Block, BlockKind, BlockLineData};
use desktop_launcher::desktop_lines::DesktopFile;
use desktop_launcher::launch::RunError;
use desktop_launcher::searcher::desktop_entry::{DesktopEntrySearcher, LineData};
use desktop_launcher::searcher::file_search::{self, FileSearcher};
use desktop_launcher::searcher::{all_searchers, Entry, EntryData, Searcher, SearcherId, SearcherKind};

const FIREFOX: &str = "[Desktop Entry]\nName=Firefox\nExec=firefox %u\nType=Application\nIcon=firefox\n";

fn files() -> Vec<DesktopFile> {
    vec![
        DesktopFile { path: "/a/firefox.desktop".to_string(), text: FIREFOX.to_string() },
        DesktopFile { path: "/b/firefox.desktop".to_string(), text: FIREFOX.to_string() },
    ]
}

#[test]
fn desktop_searcher_lines_and_run() {
    let mut s = DesktopEntrySearcher::default();
    let entries = s.get_lines(SearcherId::DesktopEntry, String::new(), &files());
    assert_eq!(entries.len(), 1);
    let e = &entries[0];
    assert_eq!(e.text, "Firefox");
    assert_eq!(e.icon.as_deref(), Some("firefox"));
    assert_eq!(e.parent, SearcherId::DesktopEntry);
    let l = e.run().unwrap();
    assert_eq!(l.program, "/bin/sh");
    assert_eq!(l.args, vec!["-c".to_string(), "firefox ".to_string()]);
    let l = s.run(e).unwrap();
    assert_eq!(l.args[1], "firefox ");
    assert!(s.get_lines(SearcherId::DesktopEntry, String::new(), &files()).is_empty());
}

#[test]
fn file_searcher_offers_one_file() {
    let mut s = FileSearcher::default();
    let entries = s.get_lines(SearcherId::FileSearch, "x".to_string(), &Vec::new());
    assert_eq!(entries.len(), 1);
    assert_eq!(entries[0].text, "hi");
    assert_eq!(entries[0].icon, None);
    assert_eq!(entries[0].parent, SearcherId::FileSearch);
    let l = entries[0].run().unwrap();
    assert_eq!(l.program, "xdg-open");
    assert_eq!(l.args, vec!["/home/svl/Downloads/Limbo/Uvod.pdf".to_string()]);
}

#[test]
fn searchers_refuse_foreign_entries() {
    let desktop = Entry {
        text: "d".to_string(),
        icon: None,
        data: EntryData::DesktopEntry(LineData { cmd: "true".to_string() }),
        parent: SearcherId::FileSearch,
    };
    assert_eq!(desktop.run().err(), Some(RunError::InvalidEntryData));
    assert_eq!(FileSearcher::default().run(&desktop).err(), Some(RunError::InvalidEntryData));
    let file = Entry {
        text: "f".to_string(),
        icon: None,
        data: EntryData::FileSearch(file_search::LineData { file_path: "/f".to_string() }),
        parent: SearcherId::DesktopEntry,
    };
    assert_eq!(file.run().err(), Some(RunError::InvalidEntry));
    assert_eq!(DesktopEntrySearcher::default().run(&file).err(), Some(RunError::InvalidEntry));
}

#[test]
fn all_searchers_in_order() {
    let mut searchers = all_searchers();
    assert_eq!(searchers.len(), 2);
    assert_eq!(searchers[0].id(), SearcherId::DesktopEntry);
    assert_eq!(searchers[1].id(), SearcherId::FileSearch);
    assert!(matches!(searchers[0], SearcherKind::DesktopEntry(_)));
    let lines = searchers[0].get_lines(String::new(), &files());
    assert_eq!(lines.len(), 1);
    assert_eq!(lines[0].parent, SearcherId::DesktopEntry);
    let lines = searchers[1].get_lines(String::new(), &files());
    assert_eq!(lines.len(), 1);
    assert_eq!(lines[0].parent, SearcherId::FileSearch);
}

#[test]
fn all_blocks_has_desktop_entry_block() {
    let mut blocks = all_blocks();
    assert_eq!(blocks.len(), 1);
    assert_eq!(blocks[0].0, "desktop_entry");
    let BlockKind::DesktopEntryBlock(b) = &mut blocks[0].1;
    let lines = b.get_lines(String::new(), &files());
    assert_eq!(lines.len(), 1);
    assert_eq!(lines[0].text, "Firefox");
    let BlockLineData::DesktopEntryData(d) = &lines[0].data;
    assert_eq!(d.cmd, "firefox %u");
    let l = b.run(&lines[0]).unwrap();
    assert_eq!(l.args, vec!["-c".to_string(), "firefox ".to_string()]);
    assert!(b.get_lines(String::new(), &files()).is_empty());
}

#[test]
fn block_and_searcher_give_the_same_lines() {
    let mut s = DesktopEntrySearcher::default();
    let entries = s.get_lines(SearcherId::DesktopEntry, "typed".to_string(), &files());
    let mut blocks = all_blocks();
    let BlockKind::DesktopEntryBlock(b) = &mut blocks[0].1;
    let lines = b.get_lines(String::new(), &files());
    assert_eq!(entries.len(), lines.len());
    assert_eq!(entries[0].text, lines[0].text);
    assert_eq!(entries[0].icon, lines[0].icon);
}
