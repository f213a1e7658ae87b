use vstd::prelude::*;

use crate::device::{
    parse_tcp_addr, parsed_tcp_addr, ConnectionState, Device, DeviceDiscoveringState, TcpAddr,
};
use crate::device_sort::{device_list, is_device_list};
use crate::events::AppEvent;
use crate::types::Hotkey;
use crate::ui::input::{InputEvent, KeyCode};
use crate::ui::list::Selection;
use crate::ui::styled::{Styled, Tint};

verus! {

/// The note after the device list's title: whether a search for devices runs or failed.
pub fn discovering_note(s: &DeviceDiscoveringState) -> (r: Styled)
    ensures
        match *s {
            DeviceDiscoveringState::Discovering => r.is("(loading...) "@, Tint::Yellow),
            DeviceDiscoveringState::Failed(_) => r.is("(error) "@, Tint::Red),
            _ => r.is(""@, Tint::Plain),
        },
{
    match s {
        DeviceDiscoveringState::Discovering => Styled::new("(loading...) ", Tint::Yellow),
        DeviceDiscoveringState::Failed(_) => Styled::new("(error) ", Tint::Red),
        _ => Styled::new("", Tint::Plain),
    }
}

/// The lines that describe the connection to the selected device.
pub fn connection_lines(s: &ConnectionState) -> (r: Vec<Styled>)
    ensures
        match *s {
            ConnectionState::NotConnected => r@.len() == 1 && r@[0].is(
                "not connected"@,
                Tint::DarkGray,
            ),
            ConnectionState::ProblemDetected { error, .. } => r@.len() == 3 && r@[0].is(
                "connection problem"@,
                Tint::Red,
            ) && r@[1].is(""@, Tint::Plain) && r@[2].is(error@, Tint::DarkGray),
            ConnectionState::Connecting => r@.len() == 1 && r@[0].is(
                "connecting..."@,
                Tint::Yellow,
            ),
            ConnectionState::Connected => r@.len() == 1 && r@[0].is("connected"@, Tint::Green),
        },
{
    let mut lines: Vec<Styled> = Vec::new();
    match s {
        ConnectionState::NotConnected => {
            lines.push(Styled::new("not connected", Tint::DarkGray));
        },
        ConnectionState::ProblemDetected { error, .. } => {
            lines.push(Styled::new("connection problem", Tint::Red));
            lines.push(Styled::new("", Tint::Plain));
            lines.push(Styled { text: error.clone(), tint: Tint::DarkGray });
        },
        ConnectionState::Connecting => {
            lines.push(Styled::new("connecting...", Tint::Yellow));
        },
        ConnectionState::Connected => {
            lines.push(Styled::new("connected", Tint::Green));
        },
    }
    lines
}

/// The hotkeys are those with the given keys and labels, in order.
pub open spec fn hotkeys_are(r: Seq<Hotkey>, keys: Seq<Seq<char>>, labels: Seq<Seq<char>>) -> bool {
    &&& r.len() == keys.len() == labels.len()
    &&& forall|i: int| 0 <= i < r.len() ==> r[i].key@ == keys[i] && r[i].label@ == labels[i]
}

/// The hotkeys are those with the given (key, label) pairs, in order.
pub open spec fn hotkeys_match(r: Seq<Hotkey>, pairs: Seq<(Seq<char>, Seq<char>)>) -> bool {
    &&& r.len() == pairs.len()
    &&& forall|i: int| 0 <= i < r.len() ==> r[i].key@ == pairs[i].0 && r[i].label@ == pairs[i].1
}

/// What a device screen asks for after an input event: an event for the services, and whether
/// the key goes to the address input or the input is to be cleared.
pub struct DeviceScreenOutput {
    pub event: Option<AppEvent>,
    pub to_input: bool,
    pub reset_input: bool,
}

/// The connection screen: the device list, its selection, and the form that adds a TCP
/// device (the text of its input is kept by the caller).
pub struct Connection {
    pub devices: Vec<Device>,
    pub list: Selection,
    pub is_form_visible: bool,
    pub form_error: Option<String>,
}

/// The message shown for an address that does not read.
pub open spec fn invalid_address_message(e: Seq<char>) -> Seq<char> {
    "invalid address: "@ + e
}

impl Connection {
    pub fn new() -> (r: Connection)
        ensures
            r.devices@.len() == 0,
            r.list == (Selection { selected: None, len: 0, wrap: true }),
            !r.is_form_visible,
            r.form_error is None,
    {
        Connection {
            devices: Vec::new(),
            list: Selection::new(),
            is_form_visible: false,
            form_error: None,
        }
    }

    /// Brings the screen up to date before it is drawn: the device list is rebuilt from the
    /// TCP addresses and the discovered devices, and its first device is selected where none
    /// is.
    pub fn refresh(&mut self, tcp: &Vec<TcpAddr>, discovered: &Vec<Device>)
        ensures
            is_device_list(final(self).devices@, tcp@, discovered@),
            final(self).list.len == final(self).devices@.len(),
            !final(self).list.wrap,
            final(self).list.selected == (if old(self).list.selected is None
                && final(self).devices@.len() > 0 {
                Some(0usize)
            } else {
                old(self).list.selected
            }),
            final(self).is_form_visible == old(self).is_form_visible,
            final(self).form_error == old(self).form_error,
    {
        self.devices = device_list(tcp, discovered);
        if self.devices.len() > 0 && self.list.selected.is_none() {
            self.list.select(Some(0));
        }
        self.list.set_items(self.devices.len(), false);
    }

    /// The key hints: disconnecting while a device is active; submitting or cancelling while the
    /// form shows; else moving, connecting, adding a TCP device and searching again, and
    /// deleting where a TCP device is selected.
    pub fn get_hotkeys(&self, device_active: bool) -> (r: Vec<Hotkey>)
        requires
            self.list.selected matches Some(i) ==> i < self.devices@.len(),
        ensures
            device_active ==> hotkeys_are(r@, seq!["esc"@], seq!["disconnect"@]),
            !device_active && self.is_form_visible ==> hotkeys_are(
                r@,
                seq!["enter"@, "esc"@],
                seq!["submit"@, "cancel"@],
            ),
            !device_active && !self.is_form_visible ==> {
                let base_keys = seq!["↑↓"@, "enter"@, "t"@, "r"@];
                let base_labels = seq!["navigate"@, "connect"@, "add TCP"@, "rediscover"@];
                if self.list.selected matches Some(i) && self.devices@[i as int] is Tcp {
                    hotkeys_are(r@, base_keys.push("del"@), base_labels.push("delete"@))
                } else {
                    hotkeys_are(r@, base_keys, base_labels)
                }
            },
    {
        let mut hotkeys: Vec<Hotkey> = Vec::new();
        if device_active {
            hotkeys.push(Hotkey::new("esc", "disconnect"));
            return hotkeys;
        }
        if self.is_form_visible {
            hotkeys.push(Hotkey::new("enter", "submit"));
            hotkeys.push(Hotkey::new("esc", "cancel"));
            return hotkeys;
        }
        hotkeys.push(Hotkey::new("↑↓", "navigate"));
        hotkeys.push(Hotkey::new("enter", "connect"));
        hotkeys.push(Hotkey::new("t", "add TCP"));
        hotkeys.push(Hotkey::new("r", "rediscover"));
        match self.list.selected {
            Some(index) => match &self.devices[index] {
                Device::Tcp(_) => {
                    hotkeys.push(Hotkey::new("del", "delete"));
                },
                _ => {},
            },
            None => {},
        }
        hotkeys
    }

    /// Answers an input event. With no device active and no form shown: up and down move
    /// through the list, `r` searches for devices again, `t` opens the form, enter connects to
    /// the selected device, and delete or backspace removes a selected TCP device. With the form
    /// shown: enter submits the address that the typed `input` reads as (hostaddr's parser), or
    /// shows why it does not read as one;
    /// escape clears the input and closes the form; other keys go to the input. With a device
    /// active, escape disconnects. The mouse wheel moves through the list.
    pub fn handle_event(
        &mut self,
        device_active: bool,
        input: &str,
        event: InputEvent,
    ) -> (r: DeviceScreenOutput)
        requires
            old(self).list.selected matches Some(i) ==> i < old(self).devices@.len(),
        ensures
            final(self).devices@ == old(self).devices@,
            final(self).list.len == old(self).list.len,
            final(self).list.wrap == old(self).list.wrap,
            match event {
                InputEvent::Key(k) => match (k.code, old(self).is_form_visible, device_active) {
                    (KeyCode::Up, false, false) => final(self).list.selected == old(self).list.previous_spec() && r.event is None && !r.to_input && !r.reset_input,
                    (KeyCode::Down, false, false) => final(self).list.selected == old(self).list.next_spec() && r.event is None && !r.to_input && !r.reset_input,
                    (KeyCode::Char('r'), false, false) => final(self).list == old(self).list
                        && r.event == Some(AppEvent::DeviceRediscoverRequested) && !r.to_input
                        && !r.reset_input,
                    (KeyCode::Char('t'), false, false) => final(self).list == old(self).list
                        && final(self).is_form_visible && final(self).form_error is None
                        && r.event is None && !r.to_input && !r.reset_input,
                    (KeyCode::Enter, false, false) => final(self).list == old(self).list && !r.to_input
                        && !r.reset_input && match old(self).list.selected {
                        Some(i) => r.event matches Some(AppEvent::DeviceSelected(d)) && d
                            == old(self).devices@[i as int],
                        None => r.event is None,
                    },
                    (KeyCode::Enter, true, false) => final(self).list == old(self).list && !r.to_input
                        && !r.reset_input && match parsed_tcp_addr(input@) {
                        Ok(a) => (r.event matches Some(AppEvent::TcpDeviceSubmitted(x)) && x@ == a)
                            && !final(self).is_form_visible,
                        Err(e) => r.event is None && final(self).is_form_visible && (final(self).form_error matches Some(m) && m@ == invalid_address_message(e)),
                    },
                    (KeyCode::Delete, false, false) | (KeyCode::Backspace, false, false) => final(self).list == old(self).list && !r.to_input && !r.reset_input && match old(self).list.selected {
                        Some(i) => match old(self).devices@[i as int] {
                            Device::Tcp(a) => r.event matches Some(AppEvent::TcpDeviceRemoved(x)) && x
                                == a,
                            _ => r.event is None,
                        },
                        None => r.event is None,
                    },
                    (KeyCode::Esc, true, false) => final(self).list == old(self).list
                        && !final(self).is_form_visible && r.event is None && !r.to_input
                        && r.reset_input,
                    (KeyCode::Esc, false, true) => final(self).list == old(self).list && r.event
                        == Some(AppEvent::DisconnectionRequested) && !r.to_input && !r.reset_input,
                    (_, true, false) => final(self).list == old(self).list && r.event is None
                        && r.to_input && !r.reset_input,
                    _ => final(self).list == old(self).list && r.event is None && !r.to_input
                        && !r.reset_input,
                },
                InputEvent::ScrollUp => final(self).list.selected == old(self).list.previous_spec()
                    && r.event is None && !r.to_input && !r.reset_input,
                InputEvent::ScrollDown => final(self).list.selected == old(self).list.next_spec()
                    && r.event is None && !r.to_input && !r.reset_input,
                InputEvent::Other => final(self).list == old(self).list && r.event is None
                    && !r.to_input && !r.reset_input,
            },
            event matches InputEvent::Key(k) && k.code == KeyCode::Char('t')
                && !old(self).is_form_visible && !device_active ==> final(self).is_form_visible,
            !(event matches InputEvent::Key(k) && ((k.code == KeyCode::Char('t')
                && !old(self).is_form_visible && !device_active) || (k.code == KeyCode::Enter
                && old(self).is_form_visible && !device_active) || (k.code == KeyCode::Esc
                && old(self).is_form_visible && !device_active))) ==> final(self).is_form_visible
                == old(self).is_form_visible && final(self).form_error == old(self).form_error,
    {
        let mut out = DeviceScreenOutput { event: None, to_input: false, reset_input: false };
        match event {
            InputEvent::Key(k) => match (k.code, self.is_form_visible, device_active) {
                (KeyCode::Up, false, false) => self.list.previous(),
                (KeyCode::Down, false, false) => self.list.next(),
                (KeyCode::Char('r'), false, false) => {
                    out.event = Some(AppEvent::DeviceRediscoverRequested);
                },
                (KeyCode::Char('t'), false, false) => {
                    self.form_error = None;
                    self.is_form_visible = true;
                },
                (KeyCode::Enter, false, false) => {
                    match self.list.selected {
                        Some(index) => {
                            out.event = Some(AppEvent::DeviceSelected(self.devices[index].duplicate()));
                        },
                        None => {},
                    }
                },
                (KeyCode::Enter, true, false) => {
                    match parse_tcp_addr(input) {
                        Ok(addr) => {
                            out.event = Some(AppEvent::TcpDeviceSubmitted(addr));
                            self.is_form_visible = false;
                        },
                        Err(e) => {
                            self.form_error = Some("invalid address: ".to_owned().concat(e.as_str()));
                        },
                    }
                },
                (KeyCode::Delete, false, false) | (KeyCode::Backspace, false, false) => {
                    match self.list.selected {
                        Some(index) => match &self.devices[index] {
                            Device::Tcp(a) => {
                                out.event = Some(AppEvent::TcpDeviceRemoved(a.duplicate()));
                            },
                            _ => {},
                        },
                        None => {},
                    }
                },
                (KeyCode::Esc, true, false) => {
                    out.reset_input = true;
                    self.is_form_visible = false;
                },
                (KeyCode::Esc, false, true) => {
                    out.event = Some(AppEvent::DisconnectionRequested);
                },
                (_, true, false) => {
                    out.to_input = true;
                },
                _ => {},
            },
            InputEvent::ScrollUp => self.list.previous(),
            InputEvent::ScrollDown => self.list.next(),
            InputEvent::Other => {},
        }
        out
    }
}

/// The device screen of the first layout: the device list without the selected device's
/// details, searching again with F5.
pub struct DeviceList {
    pub devices: Vec<Device>,
    pub list: Selection,
    pub is_form_visible: bool,
    pub form_error: Option<String>,
}

impl DeviceList {
    pub fn new() -> (r: DeviceList)
        ensures
            r.devices@.len() == 0,
            r.list == (Selection { selected: None, len: 0, wrap: true }),
            !r.is_form_visible,
            r.form_error is None,
    {
        DeviceList {
            devices: Vec::new(),
            list: Selection::new(),
            is_form_visible: false,
            form_error: None,
        }
    }

    /// The key hints: submitting or cancelling while the form shows; else moving, connecting,
    /// adding a TCP device and refreshing, and deleting where a TCP device is selected.
    pub fn get_hotkeys(&self) -> (r: Vec<Hotkey>)
        requires
            self.list.selected matches Some(i) ==> i < self.devices@.len(),
        ensures
            self.is_form_visible ==> hotkeys_match(r@, seq![("enter"@, "submit"@), ("esc"@, "cancel"@)]),
            !self.is_form_visible ==> {
                let base = seq![
                    ("↑↓"@, "navigate"@),
                    ("enter"@, "connect"@),
                    ("t"@, "add TCP"@),
                    ("F5"@, "refresh"@),
                ];
                if self.list.selected matches Some(i) && self.devices@[i as int] is Tcp {
                    hotkeys_match(r@, base.push(("del"@, "delete"@)))
                } else {
                    hotkeys_match(r@, base)
                }
            },
    {
        let mut hotkeys: Vec<Hotkey> = Vec::new();
        if self.is_form_visible {
            hotkeys.push(Hotkey::new("enter", "submit"));
            hotkeys.push(Hotkey::new("esc", "cancel"));
            return hotkeys;
        }
        hotkeys.push(Hotkey::new("↑↓", "navigate"));
        hotkeys.push(Hotkey::new("enter", "connect"));
        hotkeys.push(Hotkey::new("t", "add TCP"));
        hotkeys.push(Hotkey::new("F5", "refresh"));
        match self.list.selected {
            Some(index) => match &self.devices[index] {
                Device::Tcp(_) => {
                    hotkeys.push(Hotkey::new("del", "delete"));
                },
                _ => {},
            },
            None => {},
        }
        hotkeys
    }

    /// Answers a key (other events are left alone): with no form shown, up and down move
    /// through the list, F5 searches for devices again, `t` opens the form, enter connects to
    /// the selected device, delete or backspace removes a selected TCP device; with the form
    /// shown, enter submits the address that the typed `input` reads as (hostaddr's parser) or
    /// shows why it does not read as one, escape clears the input and
    /// closes the form, and other keys go to the input.
    pub fn handle_event(&mut self, input: &str, event: InputEvent) -> (r: DeviceScreenOutput)
        requires
            old(self).list.selected matches Some(i) ==> i < old(self).devices@.len(),
        ensures
            final(self).devices@ == old(self).devices@,
            final(self).list.len == old(self).list.len,
            final(self).list.wrap == old(self).list.wrap,
            match event {
                InputEvent::Key(k) => match (k.code, old(self).is_form_visible) {
                    (KeyCode::Up, false) => final(self).list.selected == old(self).list.previous_spec()
                        && r.event is None && !r.to_input && !r.reset_input,
                    (KeyCode::Down, false) => final(self).list.selected == old(self).list.next_spec()
                        && r.event is None && !r.to_input && !r.reset_input,
                    (KeyCode::F(5), false) => final(self).list == old(self).list && r.event == Some(
                        AppEvent::DeviceRediscoverRequested,
                    ) && !r.to_input && !r.reset_input,
                    (KeyCode::Char('t'), false) => final(self).list == old(self).list
                        && final(self).is_form_visible && final(self).form_error is None
                        && r.event is None && !r.to_input && !r.reset_input,
                    (KeyCode::Enter, false) => final(self).list == old(self).list && !r.to_input
                        && !r.reset_input && match old(self).list.selected {
                        Some(i) => r.event matches Some(AppEvent::DeviceSelected(d)) && d
                            == old(self).devices@[i as int],
                        None => r.event is None,
                    },
                    (KeyCode::Enter, true) => final(self).list == old(self).list && !r.to_input
                        && !r.reset_input && match parsed_tcp_addr(input@) {
                        Ok(a) => (r.event matches Some(AppEvent::TcpDeviceSubmitted(x)) && x@ == a)
                            && !final(self).is_form_visible,
                        Err(e) => r.event is None && final(self).is_form_visible && (final(self).form_error matches Some(m) && m@ == invalid_address_message(e)),
                    },
                    (KeyCode::Delete, false) | (KeyCode::Backspace, false) => final(self).list == old(self).list && !r.to_input && !r.reset_input && match old(self).list.selected {
                        Some(i) => match old(self).devices@[i as int] {
                            Device::Tcp(a) => r.event matches Some(AppEvent::TcpDeviceRemoved(x)) && x
                                == a,
                            _ => r.event is None,
                        },
                        None => r.event is None,
                    },
                    (KeyCode::Esc, true) => final(self).list == old(self).list
                        && !final(self).is_form_visible && r.event is None && !r.to_input
                        && r.reset_input,
                    (_, true) => final(self).list == old(self).list && r.event is None
                        && r.to_input && !r.reset_input,
                    _ => final(self).list == old(self).list && r.event is None && !r.to_input
                        && !r.reset_input,
                },
                _ => final(self).list == old(self).list && r.event is None && !r.to_input
                    && !r.reset_input,
            },
    {
        let mut out = DeviceScreenOutput { event: None, to_input: false, reset_input: false };
        match event {
            InputEvent::Key(k) => match (k.code, self.is_form_visible) {
                (KeyCode::Up, false) => self.list.previous(),
                (KeyCode::Down, false) => self.list.next(),
                (KeyCode::F(5), false) => {
                    out.event = Some(AppEvent::DeviceRediscoverRequested);
                },
                (KeyCode::Char('t'), false) => {
                    self.form_error = None;
                    self.is_form_visible = true;
                },
                (KeyCode::Enter, false) => {
                    match self.list.selected {
                        Some(index) => {
                            out.event = Some(AppEvent::DeviceSelected(self.devices[index].duplicate()));
                        },
                        None => {},
                    }
                },
                (KeyCode::Enter, true) => {
                    match parse_tcp_addr(input) {
                        Ok(addr) => {
                            out.event = Some(AppEvent::TcpDeviceSubmitted(addr));
                            self.is_form_visible = false;
                        },
                        Err(e) => {
                            self.form_error = Some("invalid address: ".to_owned().concat(e.as_str()));
                        },
                    }
                },
                (KeyCode::Delete, false) | (KeyCode::Backspace, false) => {
                    match self.list.selected {
                        Some(index) => match &self.devices[index] {
                            Device::Tcp(a) => {
                                out.event = Some(AppEvent::TcpDeviceRemoved(a.duplicate()));
                            },
                            _ => {},
                        },
                        None => {},
                    }
                },
                (KeyCode::Esc, true) => {
                    out.reset_input = true;
                    self.is_form_visible = false;
                },
                (_, true) => {
                    out.to_input = true;
                },
                _ => {},
            },
            _ => {},
        }
        out
    }
}

} // verus!
