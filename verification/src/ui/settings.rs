use vstd::prelude::*;

use crate::events::AppEvent;
use crate::settings::{FormId, SettingsFormState, SettingsItem};
use crate::types::Hotkey;
use crate::ui::input::KeyCode;
use crate::ui::list::Selection;

verus! {

/// The settings menu: the radio, device, module and application groups, each heading its
/// forms.
pub open spec fn settings_menu() -> Seq<SettingsItem> {
    seq![
        SettingsItem::Group { title: "Radio" },
        SettingsItem::Form { title: "LoRa", id: FormId::RadioLora },
        SettingsItem::Form { title: "Channels", id: FormId::RadioChannels },
        SettingsItem::Form { title: "Security", id: FormId::RadioSecurity },
        SettingsItem::Group { title: "Device" },
        SettingsItem::Form { title: "User", id: FormId::DeviceUser },
        SettingsItem::Form { title: "Device", id: FormId::DeviceDevice },
        SettingsItem::Form { title: "Position", id: FormId::DevicePosition },
        SettingsItem::Form { title: "Power", id: FormId::DevicePower },
        SettingsItem::Form { title: "Display", id: FormId::DeviceDisplay },
        SettingsItem::Form { title: "Bluetooth", id: FormId::DeviceBluetooth },
        SettingsItem::Group { title: "Module" },
        SettingsItem::Form { title: "MQTT", id: FormId::ModuleMqtt },
        SettingsItem::Form { title: "Serial", id: FormId::ModuleSerial },
        SettingsItem::Form { title: "External Notification", id: FormId::ModuleExternalNotification },
        SettingsItem::Form { title: "Store & Forward", id: FormId::ModuleStoreAndForward },
        SettingsItem::Form { title: "Range Test", id: FormId::ModuleRangeTest },
        SettingsItem::Form { title: "Telemetry", id: FormId::ModuleTelemetry },
        SettingsItem::Form { title: "Canned Message", id: FormId::ModuleCannedMessage },
        SettingsItem::Form { title: "Neighbor Info", id: FormId::ModuleNeighborInfo },
        SettingsItem::Group { title: "App" },
        SettingsItem::Form { title: "UI", id: FormId::AppUi },
    ]
}

/// The entries of the settings menu.
pub fn build_settings() -> (r: Vec<SettingsItem>)
    ensures
        r@ == settings_menu(),
{
    let mut v: Vec<SettingsItem> = Vec::new();
    v.push(SettingsItem::group("Radio"));
    v.push(SettingsItem::form("LoRa", FormId::RadioLora));
    v.push(SettingsItem::form("Channels", FormId::RadioChannels));
    v.push(SettingsItem::form("Security", FormId::RadioSecurity));
    v.push(SettingsItem::group("Device"));
    v.push(SettingsItem::form("User", FormId::DeviceUser));
    v.push(SettingsItem::form("Device", FormId::DeviceDevice));
    v.push(SettingsItem::form("Position", FormId::DevicePosition));
    v.push(SettingsItem::form("Power", FormId::DevicePower));
    v.push(SettingsItem::form("Display", FormId::DeviceDisplay));
    v.push(SettingsItem::form("Bluetooth", FormId::DeviceBluetooth));
    v.push(SettingsItem::group("Module"));
    v.push(SettingsItem::form("MQTT", FormId::ModuleMqtt));
    v.push(SettingsItem::form("Serial", FormId::ModuleSerial));
    v.push(SettingsItem::form("External Notification", FormId::ModuleExternalNotification));
    v.push(SettingsItem::form("Store & Forward", FormId::ModuleStoreAndForward));
    v.push(SettingsItem::form("Range Test", FormId::ModuleRangeTest));
    v.push(SettingsItem::form("Telemetry", FormId::ModuleTelemetry));
    v.push(SettingsItem::form("Canned Message", FormId::ModuleCannedMessage));
    v.push(SettingsItem::form("Neighbor Info", FormId::ModuleNeighborInfo));
    v.push(SettingsItem::group("App"));
    v.push(SettingsItem::form("UI", FormId::AppUi));
    proof {
        assert(v@ =~= settings_menu());
    }
    v
}

/// The first position from `j` on that holds a form, or the last position.
pub open spec fn first_form_from(items: Seq<SettingsItem>, j: int) -> int
    decreases items.len() - j,
{
    if j >= items.len() - 1 {
        items.len() - 1
    } else if items[j] is Form {
        j
    } else {
        first_form_from(items, j + 1)
    }
}

/// The last position up to `j` that holds a form, or the first position.
pub open spec fn last_stop_upto(items: Seq<SettingsItem>, j: int) -> int
    decreases j,
{
    if j <= 0 {
        0
    } else if items[j] is Form {
        j
    } else {
        last_stop_upto(items, j - 1)
    }
}

/// The menu position after moving down: the next form below the selection (group headings are
/// passed over), or the last position.
pub open spec fn menu_down(items: Seq<SettingsItem>, selected: Option<usize>) -> int {
    match selected {
        None => first_form_from(items, 0),
        Some(i) => first_form_from(items, if i + 1 < items.len() { i + 1 } else { items.len() - 1 }),
    }
}

/// The menu position after moving up: the next form above the selection, or the first
/// position, where the menu's first heading stands.
pub open spec fn menu_up(items: Seq<SettingsItem>, selected: Option<usize>) -> int {
    match selected {
        None => last_stop_upto(items, items.len() - 1),
        Some(i) => last_stop_upto(items, if i > 0 { i - 1 } else { 0 }),
    }
}

/// The settings screen: the selection in the menu and in the open form.
#[derive(Clone, Copy, Debug)]
pub struct Settings {
    pub menu: Selection,
    pub form: Selection,
}

/// What the settings screen asks for on a key: the form to open, or to close the form.
pub open spec fn settings_key_event(
    items: Seq<SettingsItem>,
    menu: Selection,
    form_state: SettingsFormState,
    key: KeyCode,
) -> Option<AppEvent> {
    match (key, form_state) {
        (KeyCode::Enter, SettingsFormState::Inactive) => match menu.selected {
            Some(i) => if i < items.len() && items[i as int] is Form {
                Some(AppEvent::SettingsFormSelected(items[i as int]->Form_id))
            } else {
                None
            },
            None => None,
        },
        (KeyCode::Esc, SettingsFormState::Loading { .. })
        | (KeyCode::Esc, SettingsFormState::LoadingFailed { .. })
        | (KeyCode::Esc, SettingsFormState::Loaded { .. }) => Some(
            AppEvent::SettingsFormLoadingCancelRequested,
        ),
        _ => None,
    }
}

impl Settings {
    pub fn new() -> (r: Settings)
        ensures
            r.menu == (Selection { selected: None, len: 0, wrap: true }),
            r.form == (Selection { selected: None, len: 0, wrap: true }),
    {
        Settings { menu: Selection::new(), form: Selection::new() }
    }

    /// Prepares the menu for drawing with `items`: the first entry is selected where none is,
    /// and the menu holds as many positions as there are items, without wrapping.
    pub fn refresh(&mut self, items: &Vec<SettingsItem>)
        ensures
            final(self).menu == (Selection {
                selected: if old(self).menu.selected is None {
                    Some(0usize)
                } else {
                    old(self).menu.selected
                },
                len: items@.len() as usize,
                wrap: false,
            }),
            final(self).form == old(self).form,
    {
        if self.menu.selected.is_none() {
            self.menu.select(Some(0));
        }
        self.menu.set_items(items.len(), false);
    }

    /// Prepares the open form for drawing with `field_count` fields: the first field is
    /// selected where none is, and the form holds as many positions as it has fields, without
    /// wrapping.
    pub fn refresh_form(&mut self, field_count: usize)
        ensures
            final(self).form == (Selection {
                selected: if old(self).form.selected is None {
                    Some(0usize)
                } else {
                    old(self).form.selected
                },
                len: field_count,
                wrap: false,
            }),
            final(self).menu == old(self).menu,
    {
        if self.form.selected.is_none() {
            self.form.select(Some(0));
        }
        self.form.set_items(field_count, false);
    }

    /// The key hints of the settings screen in each state of the form.
    pub fn get_hotkeys(&self, form_state: &SettingsFormState) -> (r: Vec<Hotkey>)
        ensures
            match *form_state {
                SettingsFormState::Inactive => r@.len() == 2 && r@[0].key@ == "↑↓"@ && r@[0].label@
                    == "scroll"@ && r@[1].key@ == "enter"@ && r@[1].label@ == "open"@,
                SettingsFormState::Loading { .. } => r@.len() == 1 && r@[0].key@ == "esc"@
                    && r@[0].label@ == "cancel"@,
                SettingsFormState::Loaded { .. } => {
                    let n: int = if self.form.selected is Some {
                        1
                    } else {
                        0
                    };
                    &&& r@.len() == 2 + n
                    &&& r@[0].key@ == "↑↓"@ && r@[0].label@ == "scroll"@
                    &&& n == 1 ==> r@[1].key@ == "enter"@ && r@[1].label@ == "edit"@
                    &&& r@[1 + n].key@ == "esc"@ && r@[1 + n].label@ == "return"@
                },
                _ => r@.len() == 1 && r@[0].key@ == "esc"@ && r@[0].label@ == "return"@,
            },
    {
        let mut hotkeys: Vec<Hotkey> = Vec::new();
        match form_state {
            SettingsFormState::Inactive => {
                hotkeys.push(Hotkey::new("↑↓", "scroll"));
                hotkeys.push(Hotkey::new("enter", "open"));
            },
            SettingsFormState::Loading { .. } => {
                hotkeys.push(Hotkey::new("esc", "cancel"));
            },
            SettingsFormState::Loaded { .. } => {
                hotkeys.push(Hotkey::new("↑↓", "scroll"));
                if self.form.selected.is_some() {
                    hotkeys.push(Hotkey::new("enter", "edit"));
                }
                hotkeys.push(Hotkey::new("esc", "return"));
            },
            _ => {
                hotkeys.push(Hotkey::new("esc", "return"));
            },
        }
        hotkeys
    }

    /// Answers a key on the settings screen, whose menu holds `items` and was drawn with them.
    /// With no form open, up and down move through the menu, passing over group headings (up
    /// stops at the first position), and enter opens the selected form; with a form open, up
    /// and down move through its fields; escape closes a form that is loading, failed to load or
    /// is shown.
    pub fn handle_key(
        &mut self,
        items: &Vec<SettingsItem>,
        form_state: &SettingsFormState,
        key: KeyCode,
    ) -> (r: Option<AppEvent>)
        requires
            items@.len() > 0,
            items@.last() is Form,
            old(self).menu.len == items@.len(),
            !old(self).menu.wrap,
            old(self).menu.selected matches Some(i) ==> i < items@.len(),
        ensures
            r == settings_key_event(items@, old(self).menu, *form_state, key),
            match (key, *form_state) {
                (KeyCode::Up, SettingsFormState::Inactive) => final(self).menu == (Selection {
                    selected: Some(menu_up(items@, old(self).menu.selected) as usize),
                    ..old(self).menu
                }) && final(self).form == old(self).form,
                (KeyCode::Down, SettingsFormState::Inactive) => final(self).menu == (Selection {
                    selected: Some(menu_down(items@, old(self).menu.selected) as usize),
                    ..old(self).menu
                }) && final(self).form == old(self).form,
                (KeyCode::Up, SettingsFormState::Loaded { .. }) => final(self).menu == old(self).menu
                    && final(self).form == (Selection {
                    selected: old(self).form.previous_spec(),
                    ..old(self).form
                }),
                (KeyCode::Down, SettingsFormState::Loaded { .. }) => final(self).menu == old(self).menu && final(self).form == (Selection {
                    selected: old(self).form.next_spec(),
                    ..old(self).form
                }),
                _ => *final(self) == *old(self),
            },
    {
        match (key, form_state) {
            (KeyCode::Up, SettingsFormState::Inactive) => {
                loop
                    invariant_except_break
                        menu_up(items@, self.menu.selected) == menu_up(items@, old(self).menu.selected),
                    invariant
                        self.menu.len == items@.len(),
                        !self.menu.wrap,
                        self.form == old(self).form,
                        items@.len() > 0,
                        self.menu.selected matches Some(i) ==> i < items@.len(),
                    ensures
                        self.menu.len == items@.len(),
                        !self.menu.wrap,
                        self.form == old(self).form,
                        self.menu.selected matches Some(i) && i == menu_up(
                            items@,
                            old(self).menu.selected,
                        ),
                    decreases
                            (match self.menu.selected {
                                None => items@.len() as int,
                                Some(i) => i as int,
                            }),
                {
                    self.menu.previous();
                    let at = self.menu.selected;
                    match at {
                        Some(0) => {
                            break ;
                        },
                        Some(index) => {
                            if let SettingsItem::Form { .. } = items[index] {
                                break ;
                            }
                        },
                        None => {},
                    }
                }
                None
            },
            (KeyCode::Down, SettingsFormState::Inactive) => {
                loop
                    invariant_except_break
                        menu_down(items@, self.menu.selected) == menu_down(items@, old(self).menu.selected),
                    invariant
                        self.menu.len == items@.len(),
                        !self.menu.wrap,
                        self.form == old(self).form,
                        items@.len() > 0,
                        items@.last() is Form,
                        self.menu.selected matches Some(i) ==> i < items@.len(),
                    ensures
                        self.menu.len == items@.len(),
                        !self.menu.wrap,
                        self.form == old(self).form,
                        self.menu.selected matches Some(i) && i == menu_down(
                            items@,
                            old(self).menu.selected,
                        ),
                    decreases
                            (match self.menu.selected {
                                None => items@.len() as int + 1,
                                Some(i) => items@.len() - i,
                            }),
                {
                    self.menu.next();
                    let at = self.menu.selected;
                    match at {
                        Some(index) => {
                            if let SettingsItem::Form { .. } = items[index] {
                                break ;
                            }
                        },
                        None => {},
                    }
                }
                None
            },
            (KeyCode::Enter, SettingsFormState::Inactive) => {
                match self.menu.selected {
                    Some(index) => {
                        if index < items.len() {
                            match items[index] {
                                SettingsItem::Form { id, .. } => Some(
                                    AppEvent::SettingsFormSelected(id),
                                ),
                                _ => None,
                            }
                        } else {
                            None
                        }
                    },
                    None => None,
                }
            },
            (KeyCode::Esc, SettingsFormState::Loading { .. })
            | (KeyCode::Esc, SettingsFormState::LoadingFailed { .. })
            | (KeyCode::Esc, SettingsFormState::Loaded { .. }) => {
                Some(AppEvent::SettingsFormLoadingCancelRequested)
            },
            (KeyCode::Up, SettingsFormState::Loaded { .. }) => {
                self.form.previous();
                None
            },
            (KeyCode::Down, SettingsFormState::Loaded { .. }) => {
                self.form.next();
                None
            },
            _ => None,
        }
    }
}

} // verus!
