use vstd::prelude::*;

use crate::state::LogRecord;
use crate::types::Hotkey;
use crate::ui::connection::hotkeys_match;
use crate::ui::input::{InputEvent, KeyCode};
use crate::ui::list::Selection;

verus! {

/// The log screen: the selection in the log, whether it follows new records, the record shown
/// in full with how far it is scrolled, and the key hints of the list and of the full record.
pub struct Logs {
    pub list: Selection,
    pub follow: bool,
    pub popup_record: Option<LogRecord>,
    pub popup_scroll_offset: u16,
    pub hotkeys: Vec<Hotkey>,
    pub popup_hotkeys: Vec<Hotkey>,
}

/// The event is a press of the key.
pub open spec fn key_is(event: InputEvent, code: KeyCode) -> bool {
    event matches InputEvent::Key(k) && k.code == code
}

impl Logs {
    pub fn new() -> (r: Logs)
        ensures
            r.list == (Selection { selected: None, len: 0, wrap: true }),
            r.follow,
            r.popup_record is None,
            r.popup_scroll_offset == 0,
            hotkeys_match(
                r.hotkeys@,
                seq![
                    ("↑↓"@, "scroll"@),
                    ("enter"@, "expand"@),
                    ("c"@, "copy"@),
                    ("home"@, "to top"@),
                    ("end"@, "to bottom"@),
                ],
            ),
            hotkeys_match(
                r.popup_hotkeys@,
                seq![("↑↓"@, "scroll"@), ("c"@, "copy"@), ("esc"@, "close"@)],
            ),
    {
        let mut hotkeys: Vec<Hotkey> = Vec::new();
        hotkeys.push(Hotkey::new("↑↓", "scroll"));
        hotkeys.push(Hotkey::new("enter", "expand"));
        hotkeys.push(Hotkey::new("c", "copy"));
        hotkeys.push(Hotkey::new("home", "to top"));
        hotkeys.push(Hotkey::new("end", "to bottom"));
        let mut popup_hotkeys: Vec<Hotkey> = Vec::new();
        popup_hotkeys.push(Hotkey::new("↑↓", "scroll"));
        popup_hotkeys.push(Hotkey::new("c", "copy"));
        popup_hotkeys.push(Hotkey::new("esc", "close"));
        Logs {
            list: Selection::new(),
            follow: true,
            popup_record: None,
            popup_scroll_offset: 0,
            hotkeys,
            popup_hotkeys,
        }
    }

    /// Brings the screen up to date before it is drawn with `count` records: a following list
    /// selects the last record.
    pub fn refresh(&mut self, count: usize)
        ensures
            final(self).list == (Selection {
                selected: if old(self).follow && count > 0 {
                    Some((count - 1) as usize)
                } else {
                    old(self).list.selected
                },
                len: count,
                wrap: false,
            }),
            final(self).follow == old(self).follow,
            final(self).popup_record == old(self).popup_record,
            final(self).popup_scroll_offset == old(self).popup_scroll_offset,
    {
        if self.follow && count > 0 {
            self.list.select(Some(count - 1));
        }
        self.list.set_items(count, false);
    }

    /// Answers an input event on the log `logs`; the result is the record to copy, if any.
    /// In the list: up and down (and the mouse wheel) move, moving up stops following new
    /// records and moving down to the last follows them again; enter shows the selected record
    /// in full; home goes to the first record and stops following, end to the last and
    /// follows. In the full record: up and down scroll it, escape closes it. `c` copies the
    /// selected record.
    pub fn handle_event(&mut self, logs: &Vec<LogRecord>, event: InputEvent) -> (r: Option<
        LogRecord,
    >)
        requires
            (key_is(event, KeyCode::Enter) && old(self).popup_record is None || key_is(
                event,
                KeyCode::Char('c'),
            )) && old(self).list.selected is Some ==> old(self).list.selected->0 < logs@.len(),
            (key_is(event, KeyCode::Down) && old(self).popup_record is None || event is ScrollDown)
                && old(self).list.next_spec() is Some ==> logs@.len() > 0,
            key_is(event, KeyCode::End) && old(self).popup_record is None ==> logs@.len() > 0,
        ensures
            final(self).list.len == old(self).list.len,
            final(self).list.wrap == old(self).list.wrap,
            match event {
                InputEvent::Key(k) => match (k.code, old(self).popup_record is Some) {
                    (KeyCode::Up, false) => !final(self).follow && final(self).list.selected == old(
                        self).list.previous_spec() && r is None && final(self).popup_record
                        == old(self).popup_record,
                    (KeyCode::Down, false) => final(self).list.selected == old(self).list.next_spec()
                        && final(self).follow == match final(self).list.selected {
                        Some(i) => i == logs@.len() - 1,
                        None => old(self).follow,
                    } && r is None && final(self).popup_record == old(self).popup_record,
                    (KeyCode::Enter, false) => final(self).list == old(self).list && r is None
                        && match old(self).list.selected {
                        Some(i) => final(self).popup_record == Some(logs@[i as int])
                            && final(self).popup_scroll_offset == 0,
                        None => final(self).popup_record == old(self).popup_record,
                    },
                    (KeyCode::Home, false) => !final(self).follow && final(self).list.selected
                        == Some(0usize) && r is None,
                    (KeyCode::End, false) => final(self).follow && final(self).list.selected == Some(
                        (logs@.len() - 1) as usize,
                    ) && r is None,
                    (KeyCode::Up, true) => final(self).popup_scroll_offset == (if old(
                        self).popup_scroll_offset > 0 {
                        old(self).popup_scroll_offset - 1
                    } else {
                        0
                    }) && final(self).list == old(self).list && r is None,
                    (KeyCode::Down, true) => final(self).popup_scroll_offset == (if old(
                        self).popup_scroll_offset < u16::MAX {
                        old(self).popup_scroll_offset + 1
                    } else {
                        u16::MAX as int
                    }) && final(self).list == old(self).list && r is None,
                    (KeyCode::Esc, true) => final(self).popup_record is None && final(self).list
                        == old(self).list && r is None,
                    (KeyCode::Char('c'), _) => final(self).list == old(self).list && match old(
                        self).list.selected {
                        Some(i) => r == Some(logs@[i as int]),
                        None => r is None,
                    },
                    _ => final(self).list == old(self).list && r is None,
                },
                InputEvent::ScrollUp => !final(self).follow && final(self).list.selected == old(
                    self).list.previous_spec() && r is None,
                InputEvent::ScrollDown => final(self).list.selected == old(self).list.next_spec()
                    && final(self).follow == match final(self).list.selected {
                    Some(i) => i == logs@.len() - 1,
                    None => old(self).follow,
                } && r is None,
                InputEvent::Other => final(self).list == old(self).list && r is None,
            },
    {
        let popup = self.popup_record.is_some();
        let mut copy: Option<LogRecord> = None;
        match event {
            InputEvent::Key(k) => match (k.code, popup) {
                (KeyCode::Up, false) => {
                    self.follow = false;
                    self.list.previous();
                },
                (KeyCode::Down, false) => {
                    self.list.next();
                    match self.list.selected {
                        Some(i) => {
                            self.follow = i == logs.len() - 1;
                        },
                        None => {},
                    }
                },
                (KeyCode::Enter, false) => {
                    match self.list.selected {
                        Some(i) => {
                            self.popup_record = Some(logs[i].duplicate());
                            self.popup_scroll_offset = 0;
                        },
                        None => {},
                    }
                },
                (KeyCode::Home, false) => {
                    self.follow = false;
                    self.list.select(Some(0));
                },
                (KeyCode::End, false) => {
                    self.follow = true;
                    self.list.select(Some(logs.len() - 1));
                },
                (KeyCode::Up, true) => {
                    self.popup_scroll_offset = self.popup_scroll_offset.saturating_sub(1);
                },
                (KeyCode::Down, true) => {
                    self.popup_scroll_offset = self.popup_scroll_offset.saturating_add(1);
                },
                (KeyCode::Esc, true) => {
                    self.popup_record = None;
                },
                (KeyCode::Char('c'), _) => {
                    match self.list.selected {
                        Some(i) => {
                            copy = Some(logs[i].duplicate());
                        },
                        None => {},
                    }
                },
                _ => {},
            },
            InputEvent::ScrollUp => {
                self.follow = false;
                self.list.previous();
            },
            InputEvent::ScrollDown => {
                self.list.next();
                match self.list.selected {
                    Some(i) => {
                        self.follow = i == logs.len() - 1;
                    },
                    None => {},
                }
            },
            InputEvent::Other => {},
        }
        copy
    }
}

} // verus!
