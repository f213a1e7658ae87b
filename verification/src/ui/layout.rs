use vstd::prelude::*;

use crate::device::ConnectionState;
use crate::events::AppEvent;
use crate::store::StateAction;
use crate::text::{decimal, decimal_string};
use crate::types::{Hotkey, Tab, ToastKind};
use crate::ui::input::{InputEvent, KeyCode};
use crate::ui::nodes::styled_match;
use crate::ui::styled::{Styled, Tint};

verus! {

/// The text in lower case, as `str::to_lowercase` writes it.
pub uninterp spec fn lowercase(s: Seq<char>) -> Seq<char>;

/// `str::to_lowercase` (std). The result is named `lowercase`.
#[verifier::external_body]
fn to_lower(s: &str) -> (r: String)
    ensures
        r@ == lowercase(s@),
{
    s.to_lowercase()
}

/// The line of key hints.
pub struct Hotkeys {
    pub items: Vec<Hotkey>,
}

impl Hotkeys {
    pub fn new(items: Vec<Hotkey>) -> (r: Hotkeys)
        ensures
            r.items@ == items@,
    {
        Hotkeys { items }
    }
}

/// The header with the application's name and the state of the connection.
pub struct Header {}

impl Header {
    pub fn new() -> Header {
        Header {}
    }
}

/// The tab bar.
pub struct Tabs {}

impl Tabs {
    pub fn new() -> Tabs {
        Tabs {}
    }

    /// Answers an input event: tab asks for the next tab, back-tab for the previous one.
    pub fn handle_event(&self, event: InputEvent) -> (r: Option<AppEvent>)
        ensures
            r == (match event {
                InputEvent::Key(k) => match k.code {
                    KeyCode::Tab => Some(AppEvent::NextTabRequested),
                    KeyCode::BackTab => Some(AppEvent::PreviousTabRequested),
                    _ => None,
                },
                _ => None,
            }),
    {
        match event {
            InputEvent::Key(k) => match k.code {
                KeyCode::Tab => Some(AppEvent::NextTabRequested),
                KeyCode::BackTab => Some(AppEvent::PreviousTabRequested),
                _ => None,
            },
            _ => None,
        }
    }
}

/// The tab bar: every tab's name in lower case, two spaces apart; the active tab's name
/// padded with a space on each side and highlighted.
pub open spec fn tab_bar_spec(active: Tab) -> Seq<(Seq<char>, Tint)> {
    let piece = |i: int| {
        let t = Tab::at(i);
        if t == active {
            (" "@ + lowercase(t.title_spec()) + " "@, Tint::Highlight)
        } else {
            (lowercase(t.title_spec()), Tint::Plain)
        }
    };
    seq![
        piece(0),
        ("  "@, Tint::Plain),
        piece(1),
        ("  "@, Tint::Plain),
        piece(2),
        ("  "@, Tint::Plain),
        piece(3),
        ("  "@, Tint::Plain),
        piece(4),
    ]
}

fn tab_piece(t: Tab, active: Tab) -> (r: Styled)
    ensures
        r.text@ == (if t == active {
            " "@ + lowercase(t.title_spec()) + " "@
        } else {
            lowercase(t.title_spec())
        }),
        r.tint == (if t == active {
            Tint::Highlight
        } else {
            Tint::Plain
        }),
{
    let name = to_lower(t.title());
    if t == active {
        let s = " ".to_owned().concat(name.as_str());
        Styled { text: s.concat(" "), tint: Tint::Highlight }
    } else {
        Styled { text: name, tint: Tint::Plain }
    }
}

/// The pieces of the tab bar.
pub fn tab_bar(active: Tab) -> (r: Vec<Styled>)
    ensures
        styled_match(r@, tab_bar_spec(active)),
{
    let mut r: Vec<Styled> = Vec::new();
    r.push(tab_piece(Tab::Chat, active));
    r.push(Styled::new("  ", Tint::Plain));
    r.push(tab_piece(Tab::Nodes, active));
    r.push(Styled::new("  ", Tint::Plain));
    r.push(tab_piece(Tab::Settings, active));
    r.push(Styled::new("  ", Tint::Plain));
    r.push(tab_piece(Tab::Connection, active));
    r.push(Styled::new("  ", Tint::Plain));
    r.push(tab_piece(Tab::Logs, active));
    r
}

/// The state of the connection as the header shows it at monotonic time `now` (milliseconds):
/// for a problem, how many whole seconds the connection has been paused.
pub open spec fn header_connection_spec(s: ConnectionState, now: u64) -> Seq<(Seq<char>, Tint)> {
    match s {
        ConnectionState::NotConnected => seq![("not connected"@, Tint::DarkGray)],
        ConnectionState::ProblemDetected { since, .. } => seq![
            (
                "on pause "@ + decimal(
                    (if now >= since {
                        (now - since) / 1000
                    } else {
                        0
                    }) as nat,
                ) + " secs"@,
                Tint::Red,
            ),
        ],
        ConnectionState::Connecting => seq![("connecting..."@, Tint::Yellow)],
        ConnectionState::Connected => seq![
            ("online"@, Tint::Plain),
            (" "@, Tint::Plain),
            ("10/200"@, Tint::Yellow),
            ("  "@, Tint::Plain),
            ("rx "@, Tint::Plain),
            ("■"@, Tint::Green),
            (" "@, Tint::Plain),
            ("tx "@, Tint::Plain),
            ("■"@, Tint::Red),
        ],
    }
}

/// The state of the connection as the header shows it.
pub fn header_connection(s: &ConnectionState, now: u64) -> (r: Vec<Styled>)
    ensures
        styled_match(r@, header_connection_spec(*s, now)),
{
    let mut r: Vec<Styled> = Vec::new();
    match s {
        ConnectionState::NotConnected => {
            r.push(Styled::new("not connected", Tint::DarkGray));
        },
        ConnectionState::ProblemDetected { since, .. } => {
            let secs = now.saturating_sub(*since) / 1000;
            let text = "on pause ".to_owned().concat(decimal_string(secs).as_str());
            r.push(Styled { text: text.concat(" secs"), tint: Tint::Red });
        },
        ConnectionState::Connecting => {
            r.push(Styled::new("connecting...", Tint::Yellow));
        },
        ConnectionState::Connected => {
            r.push(Styled::new("online", Tint::Plain));
            r.push(Styled::new(" ", Tint::Plain));
            r.push(Styled::new("10/200", Tint::Yellow));
            r.push(Styled::new("  ", Tint::Plain));
            r.push(Styled::new("rx ", Tint::Plain));
            r.push(Styled::new("■", Tint::Green));
            r.push(Styled::new(" ", Tint::Plain));
            r.push(Styled::new("tx ", Tint::Plain));
            r.push(Styled::new("■", Tint::Red));
        },
    }
    r
}

/// The colours of a toast's border and text.
pub fn toast_colors(kind: ToastKind) -> (r: (Tint, Tint))
    ensures
        r == (match kind {
            ToastKind::Success => (Tint::Green, Tint::Green),
            ToastKind::Normal => (Tint::DarkGray, Tint::White),
            ToastKind::Warning => (Tint::DarkGray, Tint::Yellow),
            ToastKind::Error => (Tint::Red, Tint::Red),
        }),
{
    match kind {
        ToastKind::Success => (Tint::Green, Tint::Green),
        ToastKind::Normal => (Tint::DarkGray, Tint::White),
        ToastKind::Warning => (Tint::DarkGray, Tint::Yellow),
        ToastKind::Error => (Tint::Red, Tint::Red),
    }
}

/// The screen of the main area that an input event goes to.
#[derive(Clone, Copy, Debug, PartialEq, Eq, Structural)]
pub enum Screen {
    Messenger,
    Channels,
    Nodes,
    Connection,
    Logs,
    Nothing,
}

/// The screen that gets input on a tab: the chat tab shows the open channel, or the channel
/// list where none is open; the settings tab takes no input here.
pub fn screen_for(tab: Tab, channel_open: bool) -> (r: Screen)
    ensures
        r == (match tab {
            Tab::Chat => if channel_open {
                Screen::Messenger
            } else {
                Screen::Channels
            },
            Tab::Nodes => Screen::Nodes,
            Tab::Connection => Screen::Connection,
            Tab::Logs => Screen::Logs,
            Tab::Settings => Screen::Nothing,
        }),
{
    match tab {
        Tab::Chat => if channel_open {
            Screen::Messenger
        } else {
            Screen::Channels
        },
        Tab::Nodes => Screen::Nodes,
        Tab::Connection => Screen::Connection,
        Tab::Logs => Screen::Logs,
        Tab::Settings => Screen::Nothing,
    }
}

/// What the terminal reports to the interface.
#[derive(Clone, Copy, Debug)]
pub enum TerminalEvent {
    Input(InputEvent),
    Resize,
    Failed,
    Closed,
}

/// What the interface does on a report of the terminal: whether to shut down, to clear the
/// screen, and whether the event goes to the screens (after which the screen is redrawn).
pub struct TerminalStep {
    pub shutdown: bool,
    pub clear: bool,
    pub dispatch: bool,
}

/// Control-c and the end of the terminal's events shut down; a resize clears the screen;
/// every event the terminal delivers goes to the screens; an error in reading it is only
/// logged.
pub fn terminal_step(event: TerminalEvent) -> (r: TerminalStep)
    ensures
        r.shutdown == (match event {
            TerminalEvent::Input(InputEvent::Key(k)) => k.code == KeyCode::Char('c') && k.ctrl,
            TerminalEvent::Closed => true,
            _ => false,
        }),
        r.clear == (event is Resize),
        r.dispatch == (event is Input || event is Resize),
{
    match event {
        TerminalEvent::Input(e) => {
            let shutdown = match e {
                InputEvent::Key(k) => k.code == KeyCode::Char('c') && k.ctrl,
                _ => false,
            };
            TerminalStep { shutdown, clear: false, dispatch: true }
        },
        TerminalEvent::Resize => TerminalStep { shutdown: false, clear: true, dispatch: true },
        TerminalEvent::Failed => TerminalStep { shutdown: false, clear: false, dispatch: false },
        TerminalEvent::Closed => TerminalStep { shutdown: true, clear: false, dispatch: false },
    }
}

/// What a redraw does: where the state asks for a cleared frame, the screen is cleared instead
/// of drawn and the state is told so.
pub fn redraw_step(need_clear_frame: bool) -> (r: Option<StateAction>)
    ensures
        need_clear_frame ==> r matches Some(StateAction::FrameCleared),
        !need_clear_frame ==> r is None,
{
    if need_clear_frame {
        Some(StateAction::FrameCleared)
    } else {
        None
    }
}

} // verus!
