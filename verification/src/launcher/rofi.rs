//! The rofi front end, in its script mode with JSON messages.

use vstd::prelude::*;
use crate::desktop_file::opt_view;
use crate::searcher::Entry;
use super::{Event, Launcher, LauncherError};

verus! {

/// The events rofi reports.
#[derive(Clone, Copy, Debug, PartialEq, Eq, Structural)]
pub enum EventNames {
    InputChange,
    CustomKey,
    ActiveEntry,
    SelectEntry,
    DeleteEntry,
    ExecCustomInput,
}

/// A message from rofi: the event, its value, and the data of the line it is
/// about, where that data reads as entry data.
pub struct IncomingMessage {
    pub event: EventNames,
    pub value: String,
    pub data: Option<ExtraMessageData>,
}

/// The data kept with each line shown: the entry's number.
#[derive(Clone, Copy, Debug, PartialEq, Eq, Structural)]
pub struct ExtraMessageData {
    pub entry_id: usize,
}

/// One line to show.
pub struct OutgoingMessageLine {
    pub text: Option<String>,
    pub urgent: bool,
    pub highlight: bool,
    pub markup: bool,
    pub nonselectable: bool,
    pub icon: Option<String>,
    pub data: ExtraMessageData,
}

/// A message to rofi.
pub struct OutgoingMessage {
    pub message: Option<String>,
    pub overlay: Option<String>,
    pub prompt: Option<String>,
    pub input: Option<String>,
    pub input_action: Option<String>,
    pub event_format: Option<String>,
    pub active_entry: Option<String>,
    pub lines: Option<Vec<OutgoingMessageLine>>,
}

/// The format in which rofi is asked to report events.
pub open spec fn event_format_text() -> Seq<char> {
    r#"{"name":"{{name_enum}}","value":"{{value_escaped}}","data":"{{data_escaped}}"}"#@
}

/// A message that asks rofi to send the input on each change and to report
/// events in `event_format_text`, and sets nothing else.
pub open spec fn default_header(m: OutgoingMessage) -> bool {
    &&& m.message is None
    &&& m.overlay is None
    &&& m.prompt is None
    &&& m.input is None
    &&& opt_view(m.input_action) == Some("send"@)
    &&& opt_view(m.event_format) == Some(event_format_text())
    &&& m.active_entry is None
}

impl Default for OutgoingMessage {
    fn default() -> (r: Self)
        ensures
            default_header(r),
            r.lines is None,
    {
        OutgoingMessage {
            message: None,
            overlay: None,
            prompt: None,
            input: None,
            input_action: Some("send".to_owned()),
            event_format: Some(
                r#"{"name":"{{name_enum}}","value":"{{value_escaped}}","data":"{{data_escaped}}"}"#.to_owned(),
            ),
            active_entry: None,
            lines: None,
        }
    }
}

/// The line that shows entry number `i`: its text and icon, no flags set, and
/// the number as data.
pub open spec fn line_for(e: Entry, i: int, l: OutgoingMessageLine) -> bool {
    &&& opt_view(l.text) == Some(e.text@)
    &&& opt_view(l.icon) == opt_view(e.icon)
    &&& !l.urgent
    &&& !l.highlight
    &&& !l.markup
    &&& !l.nonselectable
    &&& l.data.entry_id == i
}

/// The message that shows these entries, one line each, in order.
pub open spec fn message_for(entries: Seq<Entry>, m: OutgoingMessage) -> bool {
    &&& default_header(m)
    &&& m.lines matches Some(ls) && ls@.len() == entries.len() && forall|i: int|
        0 <= i < entries.len() ==> line_for(entries[i], i, #[trigger] ls@[i])
}

/// What a message from rofi means while waiting: a selection of the entry it
/// names, an error where it names none, and nothing for other events.
pub open spec fn wait_outcome(count: nat, m: IncomingMessage) -> Result<Option<int>, LauncherError> {
    match m.event {
        EventNames::SelectEntry => match m.data {
            Some(d) => if d.entry_id < count {
                Ok(Some(d.entry_id as int))
            } else {
                Err(LauncherError::InvalidEntryId)
            },
            None => Err(LauncherError::ExpectedData),
        },
        _ => Ok(None),
    }
}

/// The rofi front end; it keeps the entries it shows.
pub struct RofiLauncher {
    entries: Vec<Entry>,
}

impl RofiLauncher {
    /// The entries shown.
    pub closed spec fn entries(&self) -> Seq<Entry> {
        self.entries@
    }

    pub fn new() -> (r: Self)
        ensures
            r.entries() == Seq::<Entry>::empty(),
    {
        RofiLauncher { entries: Vec::new() }
    }
}

impl<'a> Launcher<'a> for RofiLauncher {
    type Message = IncomingMessage;

    type Reply = OutgoingMessage;

    /// Takes one message: a selection ends the wait with the entry it names.
    fn wait_step(&'a self, message: &IncomingMessage) -> (r: Result<Option<Event<'a>>, LauncherError>)
        ensures
            match wait_outcome(self.entries().len(), *message) {
                Ok(Some(i)) => r matches Ok(Some(Event::SelectEntry(e))) && *e == self.entries()[i],
                Ok(None) => r matches Ok(None),
                Err(err) => r == Err::<Option<Event<'a>>, LauncherError>(err),
            },
    {
        match message.event {
            EventNames::SelectEntry => match &message.data {
                Some(data) => {
                    if data.entry_id < self.entries.len() {
                        Ok(Some(Event::SelectEntry(&self.entries[data.entry_id])))
                    } else {
                        Err(LauncherError::InvalidEntryId)
                    }
                },
                None => Err(LauncherError::ExpectedData),
            },
            _ => Ok(None),
        }
    }

    /// Keeps the entries and gives the message that shows them.
    fn update(&mut self, entries: Vec<Entry>) -> (m: OutgoingMessage)
        ensures
            final(self).entries() == entries@,
            message_for(entries@, m),
    {
        self.entries = entries;
        let mut lines: Vec<OutgoingMessageLine> = Vec::new();
        let n: usize = self.entries.len();
        for i in 0..n
            invariant
                n == self.entries@.len(),
                lines@.len() == i,
                forall|j: int| 0 <= j < i ==> line_for(self.entries@[j], j, #[trigger] lines@[j]),
        {
            let e = &self.entries[i];
            let icon = match &e.icon {
                Some(s) => Some(s.clone()),
                None => None,
            };
            lines.push(
                OutgoingMessageLine {
                    text: Some(e.text.clone()),
                    urgent: false,
                    highlight: false,
                    markup: false,
                    nonselectable: false,
                    icon,
                    data: ExtraMessageData { entry_id: i },
                },
            );
        }
        let mut m = OutgoingMessage::default();
        m.lines = Some(lines);
        m
    }
}

/// Selecting a line of the message that shows some entries gives back the entry
/// that line shows.
pub proof fn law_selecting_a_shown_line_gives_its_entry(
    entries: Seq<Entry>,
    m: OutgoingMessage,
    i: int,
    value: String,
)
    requires
        message_for(entries, m),
        0 <= i < entries.len(),
    ensures
        wait_outcome(
            entries.len(),
            IncomingMessage {
                event: EventNames::SelectEntry,
                value,
                data: Some((m.lines->0)@[i].data),
            },
        ) == Ok::<Option<int>, LauncherError>(Some(i)),
{
    let ls = m.lines->0;
    assert(line_for(entries[i], i, ls@[i]));
}


/// While waiting, every event other than a selection is ignored, whatever its
/// value and data: no event and no error.
pub proof fn law_other_events_are_ignored(count: nat, m: IncomingMessage)
    requires
        m.event != EventNames::SelectEntry,
    ensures
        wait_outcome(count, m) == Ok::<Option<int>, LauncherError>(None),
{
}

/// A selection picks the entry its data names where there is one; without data
/// it is an error of missing data, and with a number past the entries an error
/// of an invalid id.
pub proof fn law_selection_outcomes(count: nat, m: IncomingMessage)
    requires
        m.event == EventNames::SelectEntry,
    ensures
        match m.data {
            None => wait_outcome(count, m) == Err::<Option<int>, LauncherError>(
                LauncherError::ExpectedData,
            ),
            Some(d) => if d.entry_id < count {
                wait_outcome(count, m) == Ok::<Option<int>, LauncherError>(Some(d.entry_id as int))
            } else {
                wait_outcome(count, m) == Err::<Option<int>, LauncherError>(
                    LauncherError::InvalidEntryId,
                )
            },
        },
{
}

} // verus!
