use vstd::prelude::*;

use crate::events::AppEvent;
use crate::types::Hotkey;
use crate::ui::connection::hotkeys_match;
use crate::ui::input::{InputEvent, KeyCode};
use crate::ui::list::Selection;

verus! {

/// How the message input is set up: the text it shows while empty, and whether the line of
/// the cursor is drawn without a style of its own.
pub struct InputWidgetSettings {
    pub placeholder: String,
    pub plain_cursor_line: bool,
}

/// The message input: "type message..." while empty, the cursor's line drawn plain.
pub fn new_input_widget() -> (r: InputWidgetSettings)
    ensures
        r.placeholder@ == "type message..."@,
        r.plain_cursor_line,
{
    InputWidgetSettings { placeholder: "type message...".to_owned(), plain_cursor_line: true }
}

/// What a text input screen asks for after an input event: an event for the services, and
/// whether the input is to be cleared and then given the event.
pub struct InputOutput {
    pub event: Option<AppEvent>,
    pub reset_input: bool,
    pub to_input: bool,
}

/// A single-line message input of the first layout.
pub struct ChatInput {
    pub placeholder: String,
    pub max_length: u16,
}

impl ChatInput {
    pub fn new(placeholder: String, max_length: u16) -> (r: ChatInput)
        ensures
            r.placeholder == placeholder,
            r.max_length == max_length,
    {
        ChatInput { placeholder, max_length }
    }

    /// Answers an event with the input holding `value`: enter sends the value as a message and
    /// clears the input, escape clears it; the input gets every event afterwards.
    pub fn handle_event(&self, value: &str, event: InputEvent) -> (r: InputOutput)
        ensures
            r.to_input,
            match event {
                InputEvent::Key(k) => match k.code {
                    KeyCode::Enter => r.reset_input && (r.event matches Some(
                        AppEvent::ChatMessageSubmitted { text, reply_message_id },
                    ) && text@ == value@ && reply_message_id is None),
                    KeyCode::Esc => r.reset_input && r.event is None,
                    _ => !r.reset_input && r.event is None,
                },
                _ => !r.reset_input && r.event is None,
            },
    {
        match event {
            InputEvent::Key(k) => match k.code {
                KeyCode::Enter => InputOutput {
                    event: Some(
                        AppEvent::ChatMessageSubmitted {
                            text: value.to_owned(),
                            reply_message_id: None,
                        },
                    ),
                    reset_input: true,
                    to_input: true,
                },
                KeyCode::Esc => InputOutput { event: None, reset_input: true, to_input: true },
                _ => InputOutput { event: None, reset_input: false, to_input: true },
            },
            _ => InputOutput { event: None, reset_input: false, to_input: true },
        }
    }
}

/// The message list of the first layout, with its input.
pub struct ChatMessages {
    pub list: Selection,
    pub input: ChatInput,
    pub hotkeys: Vec<Hotkey>,
}

impl ChatMessages {
    pub fn new() -> (r: ChatMessages)
        ensures
            r.list == (Selection { selected: None, len: 0, wrap: true }),
            r.input.placeholder@ == "type message..."@,
            r.input.max_length == 200,
            hotkeys_match(
                r.hotkeys@,
                seq![("enter"@, "send message"@), ("↑↓"@, "scroll"@), ("esc"@, "switch channel"@)],
            ),
    {
        let mut hotkeys: Vec<Hotkey> = Vec::new();
        hotkeys.push(Hotkey::new("enter", "send message"));
        hotkeys.push(Hotkey::new("↑↓", "scroll"));
        hotkeys.push(Hotkey::new("esc", "switch channel"));
        ChatMessages {
            list: Selection::new(),
            input: ChatInput::new("type message...".to_owned(), 200),
            hotkeys,
        }
    }

    /// Answers an event: up and down (and the mouse wheel) move through the messages, escape
    /// switches channel, other keys go to the input.
    pub fn handle_event(&mut self, value: &str, event: InputEvent) -> (r: InputOutput)
        ensures
            final(self).list == (Selection {
                selected: match event {
                    InputEvent::Key(k) => match k.code {
                        KeyCode::Up => old(self).list.previous_spec(),
                        KeyCode::Down => old(self).list.next_spec(),
                        _ => old(self).list.selected,
                    },
                    InputEvent::ScrollUp => old(self).list.previous_spec(),
                    InputEvent::ScrollDown => old(self).list.next_spec(),
                    InputEvent::Other => old(self).list.selected,
                },
                ..old(self).list
            }),
            match event {
                InputEvent::Key(k) => match k.code {
                    KeyCode::Up | KeyCode::Down => r.event is None && !r.to_input && !r.reset_input,
                    KeyCode::Esc => r.event == Some(AppEvent::SwitchChannelRequested) && !r.to_input
                        && !r.reset_input,
                    KeyCode::Enter => r.to_input && r.reset_input && (r.event matches Some(
                        AppEvent::ChatMessageSubmitted { text, reply_message_id },
                    ) && text@ == value@ && reply_message_id is None),
                    _ => r.event is None && r.to_input && !r.reset_input,
                },
                _ => r.event is None && !r.to_input && !r.reset_input,
            },
    {
        match event {
            InputEvent::Key(k) => match k.code {
                KeyCode::Up => {
                    self.list.previous();
                    InputOutput { event: None, reset_input: false, to_input: false }
                },
                KeyCode::Down => {
                    self.list.next();
                    InputOutput { event: None, reset_input: false, to_input: false }
                },
                KeyCode::Esc => InputOutput {
                    event: Some(AppEvent::SwitchChannelRequested),
                    reset_input: false,
                    to_input: false,
                },
                _ => self.input.handle_event(value, event),
            },
            InputEvent::ScrollUp => {
                self.list.previous();
                InputOutput { event: None, reset_input: false, to_input: false }
            },
            InputEvent::ScrollDown => {
                self.list.next();
                InputOutput { event: None, reset_input: false, to_input: false }
            },
            InputEvent::Other => InputOutput { event: None, reset_input: false, to_input: false },
        }
    }
}

/// The list of conversations of the first layout.
pub struct ChatConversations {
    pub list: Selection,
    pub hotkeys: Vec<Hotkey>,
}

impl ChatConversations {
    pub fn new() -> (r: ChatConversations)
        ensures
            r.list == (Selection { selected: None, len: 0, wrap: true }),
            hotkeys_match(r.hotkeys@, seq![("enter"@, "select"@), ("↑↓"@, "navigate"@)]),
    {
        let mut hotkeys: Vec<Hotkey> = Vec::new();
        hotkeys.push(Hotkey::new("enter", "select"));
        hotkeys.push(Hotkey::new("↑↓", "navigate"));
        ChatConversations { list: Selection::new(), hotkeys }
    }
}

/// The screen of the selected device of the first layout.
pub struct DeviceSelected {
    pub hotkeys: Vec<Hotkey>,
}

impl DeviceSelected {
    pub fn new() -> (r: DeviceSelected)
        ensures
            hotkeys_match(r.hotkeys@, seq![("esc"@, "disconnect"@)]),
    {
        let mut hotkeys: Vec<Hotkey> = Vec::new();
        hotkeys.push(Hotkey::new("esc", "disconnect"));
        DeviceSelected { hotkeys }
    }

    /// Escape disconnects.
    pub fn handle_event(&self, event: InputEvent) -> (r: Option<AppEvent>)
        ensures
            r == (if event matches InputEvent::Key(k) && k.code == KeyCode::Esc {
                Some(AppEvent::DisconnectionRequested)
            } else {
                None
            }),
    {
        match event {
            InputEvent::Key(k) => match k.code {
                KeyCode::Esc => Some(AppEvent::DisconnectionRequested),
                _ => None,
            },
            _ => None,
        }
    }
}

} // verus!
