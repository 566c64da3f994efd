use desktop_launcher::launcher::rofi::{EventNames, ExtraMessageData, IncomingMessage, OutgoingMessage, RofiLauncher};
use desktop_launcher::launcher::{Event, Launcher, LauncherError};
use desktop_launcher::searcher::file_search::FileSearcher;
use desktop_launcher::searcher::{Entry, Searcher, SearcherId};

fn entries() -> Vec<Entry> {
    let mut s = FileSearcher::default();
    let mut v = s.get_lines(SearcherId::FileSearch, String::new(), &Vec::new());
    v.extend(s.get_lines(SearcherId::FileSearch, String::new(), &Vec::new()));
    v[1].text = "second".to_string();
    v[1].icon = Some("doc".to_string());
    v
}

fn message(event: EventNames, data: Option<usize>) -> IncomingMessage {
    IncomingMessage {
        event,
        value: String::new(),
        data: data.map(|entry_id| ExtraMessageData { entry_id }),
    }
}

#[test]
fn default_message_asks_for_events() {
    let m = OutgoingMessage::default();
    assert_eq!(m.input_action.as_deref(), Some("send"));
    assert_eq!(
        m.event_format.as_deref(),
        Some(r#"{"name":"{{name_enum}}","value":"{{value_escaped}}","data":"{{data_escaped}}"}"#)
    );
    assert!(m.message.is_none() && m.overlay.is_none() && m.prompt.is_none());
    assert!(m.input.is_none() && m.active_entry.is_none() && m.lines.is_none());
}

#[test]
fn update_shows_entries_in_order() {
    let mut l = RofiLauncher::new();
    let m = l.update(entries());
    let lines = m.lines.unwrap();
    assert_eq!(lines.len(), 2);
    assert_eq!(lines[0].text.as_deref(), Some("hi"));
    assert_eq!(lines[0].icon, None);
    assert_eq!(lines[0].data, ExtraMessageData { entry_id: 0 });
    assert_eq!(lines[1].text.as_deref(), Some("second"));
    assert_eq!(lines[1].icon.as_deref(), Some("doc"));
    assert_eq!(lines[1].data.entry_id, 1);
    assert!(!lines[1].urgent && !lines[1].highlight && !lines[1].markup && !lines[1].nonselectable);
    assert_eq!(m.input_action.as_deref(), Some("send"));
}

#[test]
fn selecting_a_line_gives_its_entry() {
    let mut l = RofiLauncher::new();
    let m = l.update(entries());
    let data = m.lines.unwrap()[1].data;
    match l.wait_step(&message(EventNames::SelectEntry, Some(data.entry_id))) {
        Ok(Some(Event::SelectEntry(e))) => assert_eq!(e.text, "second"),
        _ => panic!("expected a selection"),
    }
}

#[test]
fn wait_ignores_other_events() {
    let mut l = RofiLauncher::new();
    l.update(entries());
    for ev in [EventNames::InputChange, EventNames::CustomKey, EventNames::ActiveEntry, EventNames::DeleteEntry, EventNames::ExecCustomInput] {
        assert!(matches!(l.wait_step(&message(ev, Some(0))), Ok(None)));
    }
}

#[test]
fn wait_errors() {
    let mut l = RofiLauncher::new();
    l.update(entries());
    assert!(matches!(l.wait_step(&message(EventNames::SelectEntry, None)), Err(LauncherError::ExpectedData)));
    assert!(matches!(l.wait_step(&message(EventNames::SelectEntry, Some(2))), Err(LauncherError::InvalidEntryId)));
    let empty = RofiLauncher::new();
    assert!(matches!(empty.wait_step(&message(EventNames::SelectEntry, Some(0))), Err(LauncherError::InvalidEntryId)));
}
