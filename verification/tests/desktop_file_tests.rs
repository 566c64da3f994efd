use desktop_launcher::desktop_file::{has_nul, names_can_be_translated, nameless_key_in, read_desktop_entry, white_space};
use desktop_launcher::desktop_lines::{desktop_line, desktop_lines, desktop_lines_checked, first_undecodable, DesktopFile, SeenEntries};

const FIREFOX: &str = "[Desktop Entry]\nName=Firefox\nGenericName=Web Browser\nExec=firefox %u\nType=Application\nIcon=firefox\n";

#[test]
fn white_space_matches_std() {
    for c in ['a', ' ', '\t', '\n', '\r', '\u{85}', '\u{a0}', '\u{2003}', '\u{3000}', '=', 'é', '\u{200b}'] {
        assert_eq!(white_space(c), c.is_whitespace(), "{:?}", c);
    }
}

#[test]
fn nameless_keys_are_found() {
    assert!(nameless_key_in("=x"));
    assert!(nameless_key_in("  =x"));
    assert!(nameless_key_in("a\n\t=b"));
    assert!(nameless_key_in("[Desktop Entry]\r\n =v\n"));
    assert!(!nameless_key_in("a=b"));
    assert!(!nameless_key_in("a =b"));
    assert!(!nameless_key_in("[Desktop Entry]\nName=x=y\n"));
    assert!(!nameless_key_in(""));
    assert!(!nameless_key_in(FIREFOX));
}

#[test]
fn read_entry_reads_keys() {
    let info = read_desktop_entry("/usr/share/applications/firefox.desktop", FIREFOX).unwrap();
    assert_eq!(info.id, "firefox");
    assert!(!info.no_display);
    assert_eq!(info.entry_type.as_deref(), Some("Application"));
    assert_eq!(info.name.as_deref(), Some("Firefox"));
    assert_eq!(info.generic_name.as_deref(), Some("Web Browser"));
    assert_eq!(info.icon.as_deref(), Some("firefox"));
    assert_eq!(info.command.as_deref(), Some("firefox %u"));
}

#[test]
fn read_entry_no_display_and_missing_keys() {
    let text = "[Desktop Entry]\nNoDisplay=true\nType=Link\n[Other]\nExec=nope\n";
    let info = read_desktop_entry("/x/hidden.desktop", text).unwrap();
    assert_eq!(info.id, "hidden");
    assert!(info.no_display);
    assert_eq!(info.entry_type.as_deref(), Some("Link"));
    assert_eq!(info.name, None);
    assert_eq!(info.command, None);
    assert_eq!(info.icon, None);
    let info = read_desktop_entry("/x/shown.desktop", "[Desktop Entry]\nNoDisplay=false\n").unwrap();
    assert!(!info.no_display);
}

#[test]
fn read_entry_without_file_stem_fails() {
    assert!(read_desktop_entry("", FIREFOX).is_none());
    assert!(read_desktop_entry("/", FIREFOX).is_none());
    assert!(read_desktop_entry("a/..", FIREFOX).is_none());
}

#[test]
fn desktop_line_of_application() {
    let info = read_desktop_entry("/a/firefox.desktop", FIREFOX).unwrap();
    let line = desktop_line(&info).unwrap();
    assert_eq!(
        line.text,
        "Firefox <span weight='light' size='small'><i>(Web Browser)</i></span>"
    );
    assert_eq!(line.icon.as_deref(), Some("firefox"));
    assert_eq!(line.cmd, "firefox %u");
}

#[test]
fn desktop_line_without_generic_name() {
    let info = read_desktop_entry("/a/t.desktop", "[Desktop Entry]\nName=Term\nExec=xterm\nType=Application\n").unwrap();
    let line = desktop_line(&info).unwrap();
    assert_eq!(line.text, "Term");
    assert_eq!(line.icon, None);
}

#[test]
fn desktop_line_refuses_hidden_or_incomplete() {
    let hidden = "[Desktop Entry]\nName=A\nExec=a\nType=Application\nNoDisplay=true\n";
    let link = "[Desktop Entry]\nName=A\nExec=a\nType=Link\n";
    let no_type = "[Desktop Entry]\nName=A\nExec=a\n";
    let no_name = "[Desktop Entry]\nExec=a\nType=Application\n";
    let no_exec = "[Desktop Entry]\nName=A\nType=Application\n";
    for text in [hidden, link, no_type, no_name, no_exec] {
        let info = read_desktop_entry("/a/a.desktop", text).unwrap();
        assert!(desktop_line(&info).is_none(), "{}", text);
    }
}

fn file(path: &str, text: &str) -> DesktopFile {
    DesktopFile { path: path.to_string(), text: text.to_string() }
}

#[test]
fn desktop_lines_give_each_id_once() {
    let files = vec![
        file("/home/u/.local/share/applications/firefox.desktop", FIREFOX),
        file("/usr/share/applications/firefox.desktop", FIREFOX),
        file("/usr/share/applications/hidden.desktop", "[Desktop Entry]\nName=H\nExec=h\nType=Application\nNoDisplay=true\n"),
        file("/usr/share/applications/term.desktop", "[Desktop Entry]\nName=Term\nExec=xterm\nType=Application\n"),
        file("/", FIREFOX),
    ];
    let mut seen = SeenEntries::new();
    let lines = desktop_lines(&mut seen, &files);
    assert_eq!(lines.len(), 2);
    assert_eq!(lines[0].cmd, "firefox %u");
    assert_eq!(lines[1].text, "Term");
    assert!(seen.contains(&"firefox".to_string()));
    assert!(seen.contains(&"term".to_string()));
    assert!(!seen.contains(&"hidden".to_string()));
    let again = desktop_lines(&mut seen, &files);
    assert!(again.is_empty());
}

#[test]
fn seen_entries_insert_and_contains() {
    let mut seen = SeenEntries::new();
    assert!(!seen.contains(&"a".to_string()));
    seen.insert("a".to_string(), "/p/a.desktop".to_string());
    assert!(seen.contains(&"a".to_string()));
    assert!(!seen.contains(&"b".to_string()));
}

#[test]
fn names_with_nul_under_a_domain_are_refused() {
    let bad_domain = "[Desktop Entry]\nX-Ubuntu-Gettext-Domain=a\0b\nName=x\n";
    let bad_generic = "[Desktop Entry]\nX-Ubuntu-Gettext-Domain=ab\nName=x\nType=Application\nGenericName=x\0y\n";
    let hidden_bad_generic = "[Desktop Entry]\nX-Ubuntu-Gettext-Domain=ab\nName=x\nType=Application\nNoDisplay=true\nGenericName=x\0y\n";
    let link_bad_generic = "[Desktop Entry]\nX-Ubuntu-Gettext-Domain=ab\nName=x\nType=Link\nGenericName=x\0y\n";
    let no_domain = "[Desktop Entry]\nName=x\0y\n";
    let domain_no_names = "[Desktop Entry]\nX-Ubuntu-Gettext-Domain=a\0b\nExec=x\n";
    assert!(!names_can_be_translated("/a/a.desktop", bad_domain));
    assert!(!names_can_be_translated("/a/a.desktop", bad_generic));
    assert!(names_can_be_translated("/a/a.desktop", hidden_bad_generic));
    assert!(names_can_be_translated("/a/a.desktop", link_bad_generic));
    assert!(names_can_be_translated("/a/a.desktop", no_domain));
    assert!(names_can_be_translated("/a/a.desktop", domain_no_names));
    assert!(names_can_be_translated("/", bad_domain));
    assert!(names_can_be_translated("/a/firefox.desktop", FIREFOX));
}

#[test]
fn reading_under_a_domain_without_translation() {
    let text = "[Desktop Entry]\nX-Ubuntu-Gettext-Domain=no-such-domain-here\nName=Calc\nGenericName=Calculator\nType=Application\nExec=calc\n";
    let info = read_desktop_entry("/a/calc.desktop", text).unwrap();
    assert_eq!(info.name.as_deref(), Some("Calc"));
    assert_eq!(info.generic_name.as_deref(), Some("Calculator"));
    let hidden = "[Desktop Entry]\nX-Ubuntu-Gettext-Domain=ab\nName=x\nType=Application\nNoDisplay=true\nGenericName=x\0y\n";
    let info = read_desktop_entry("/a/h.desktop", hidden).unwrap();
    assert_eq!(info.generic_name, None);
    assert!(desktop_line(&info).is_none());
}

#[test]
fn first_undecodable_file_is_found() {
    let good = file("/a/firefox.desktop", FIREFOX);
    let nameless = file("/a/b.desktop", "[Desktop Entry]\n =x\n");
    let bad_name = file("/a/c.desktop", "[Desktop Entry]\nX-Ubuntu-Gettext-Domain=a\0b\nName=x\n");
    assert_eq!(first_undecodable(&vec![good.clone_file()]), None);
    assert_eq!(first_undecodable(&vec![good.clone_file(), nameless.clone_file(), bad_name.clone_file()]), Some(1));
    assert_eq!(first_undecodable(&vec![good.clone_file(), bad_name.clone_file()]), Some(1));
    let mut seen = SeenEntries::new();
    assert_eq!(desktop_lines_checked(&mut seen, &vec![bad_name.clone_file(), good.clone_file()]).err(), Some(0));
    assert!(!seen.contains(&"firefox".to_string()));
    let lines = desktop_lines_checked(&mut seen, &vec![good]).ok().unwrap();
    assert_eq!(lines.len(), 1);
}

trait CloneFile {
    fn clone_file(&self) -> DesktopFile;
}

impl CloneFile for DesktopFile {
    fn clone_file(&self) -> DesktopFile {
        DesktopFile { path: self.path.clone(), text: self.text.clone() }
    }
}

#[test]
fn nul_is_found() {
    assert!(has_nul("a\0"));
    assert!(!has_nul("abc"));
    assert!(!has_nul(""));
}

#[test]
fn undecodable_file_changes_nothing() {
    let with = vec![
        DesktopFile { path: "/".to_string(), text: FIREFOX.to_string() },
        DesktopFile { path: "/a/firefox.desktop".to_string(), text: FIREFOX.to_string() },
    ];
    let without = vec![DesktopFile { path: "/a/firefox.desktop".to_string(), text: FIREFOX.to_string() }];
    let mut s1 = SeenEntries::new();
    let mut s2 = SeenEntries::new();
    let l1 = desktop_lines(&mut s1, &with);
    let l2 = desktop_lines(&mut s2, &without);
    assert_eq!(l1.len(), l2.len());
    assert_eq!(l1[0].text, l2[0].text);
    assert_eq!(l1[0].cmd, l2[0].cmd);
}
