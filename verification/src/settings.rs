use vstd::prelude::*;

verus! {

/// The settings forms.
#[derive(Clone, Copy, Debug, PartialEq, Eq, Structural)]
pub enum FormId {
    RadioLora,
    RadioChannels,
    RadioSecurity,
    DeviceUser,
    DeviceDevice,
    DevicePosition,
    DevicePower,
    DeviceDisplay,
    DeviceBluetooth,
    ModuleMqtt,
    ModuleSerial,
    ModuleExternalNotification,
    ModuleStoreAndForward,
    ModuleRangeTest,
    ModuleTelemetry,
    ModuleCannedMessage,
    ModuleNeighborInfo,
    AppUi,
}

impl FormId {
    /// The name of a form: the name of its variant.
    pub open spec fn name_spec(self) -> Seq<char> {
        match self {
            FormId::RadioLora => "RadioLora"@,
            FormId::RadioChannels => "RadioChannels"@,
            FormId::RadioSecurity => "RadioSecurity"@,
            FormId::DeviceUser => "DeviceUser"@,
            FormId::DeviceDevice => "DeviceDevice"@,
            FormId::DevicePosition => "DevicePosition"@,
            FormId::DevicePower => "DevicePower"@,
            FormId::DeviceDisplay => "DeviceDisplay"@,
            FormId::DeviceBluetooth => "DeviceBluetooth"@,
            FormId::ModuleMqtt => "ModuleMqtt"@,
            FormId::ModuleSerial => "ModuleSerial"@,
            FormId::ModuleExternalNotification => "ModuleExternalNotification"@,
            FormId::ModuleStoreAndForward => "ModuleStoreAndForward"@,
            FormId::ModuleRangeTest => "ModuleRangeTest"@,
            FormId::ModuleTelemetry => "ModuleTelemetry"@,
            FormId::ModuleCannedMessage => "ModuleCannedMessage"@,
            FormId::ModuleNeighborInfo => "ModuleNeighborInfo"@,
            FormId::AppUi => "AppUi"@,
        }
    }

    /// The name of a form.
    pub fn name(&self) -> (r: &'static str)
        ensures
            r@ == self.name_spec(),
    {
        match self {
            FormId::RadioLora => "RadioLora",
            FormId::RadioChannels => "RadioChannels",
            FormId::RadioSecurity => "RadioSecurity",
            FormId::DeviceUser => "DeviceUser",
            FormId::DeviceDevice => "DeviceDevice",
            FormId::DevicePosition => "DevicePosition",
            FormId::DevicePower => "DevicePower",
            FormId::DeviceDisplay => "DeviceDisplay",
            FormId::DeviceBluetooth => "DeviceBluetooth",
            FormId::ModuleMqtt => "ModuleMqtt",
            FormId::ModuleSerial => "ModuleSerial",
            FormId::ModuleExternalNotification => "ModuleExternalNotification",
            FormId::ModuleStoreAndForward => "ModuleStoreAndForward",
            FormId::ModuleRangeTest => "ModuleRangeTest",
            FormId::ModuleTelemetry => "ModuleTelemetry",
            FormId::ModuleCannedMessage => "ModuleCannedMessage",
            FormId::ModuleNeighborInfo => "ModuleNeighborInfo",
            FormId::AppUi => "AppUi",
        }
    }
}

/// Where the settings screen stands with the open form.
#[derive(Clone, Debug)]
pub enum SettingsFormState {
    Inactive,
    Loading { id: FormId },
    LoadingFailed { id: FormId, error: String },
    Loaded { id: FormId },
    Saving { id: FormId },
    SavingFailed { id: FormId, error: String },
    Saved { id: FormId },
}

/// An entry of the settings menu: a group heading or a form.
#[derive(Clone, Copy, Debug)]
pub enum SettingsItem {
    Group { title: &'static str },
    Form { title: &'static str, id: FormId },
}

impl SettingsItem {
    pub fn group(title: &'static str) -> (r: SettingsItem)
        ensures
            r == (SettingsItem::Group { title }),
    {
        SettingsItem::Group { title }
    }

    pub fn form(title: &'static str, id: FormId) -> (r: SettingsItem)
        ensures
            r == (SettingsItem::Form { title, id }),
    {
        SettingsItem::Form { title, id }
    }
}

/// A value of a settings form field. `Float32` holds the bit pattern of a single-precision number.
#[derive(Clone, Debug)]
pub enum FormValue {
    String(String),
    Int32(i32),
    UnsignedInt32(u32),
    Float32(u32),
    Bool(bool),
}

/// One field of a settings form and its value.
#[derive(Clone, Debug)]
pub struct FormField {
    pub key: String,
    pub value: FormValue,
}

/// A choice offered by an enumerated settings field.
#[derive(Clone, Debug)]
pub struct FormEnumVariant<T> {
    pub title: String,
    pub value: T,
}

impl<T> FormEnumVariant<T> {
    pub fn new(title: &str, value: T) -> (r: FormEnumVariant<T>)
        ensures
            r.title@ == title@,
            r.value == value,
    {
        FormEnumVariant { title: title.to_owned(), value }
    }
}

/// Position of the first field with the given key, if any.
pub open spec fn field_index(fields: Seq<FormField>, key: Seq<char>) -> Option<int> {
    if exists|i: int| 0 <= i < fields.len() && fields[i].key@ == key {
        Some(
            choose|i: int|
                0 <= i < fields.len() && fields[i].key@ == key && (forall|j: int|
                    0 <= j < i ==> fields[j].key@ != key),
        )
    } else {
        None
    }
}

/// The value a form holds for a key: that of its first field with the key.
pub open spec fn field_value(fields: Seq<FormField>, key: Seq<char>) -> Option<FormValue> {
    match field_index(fields, key) {
        Some(i) => Some(fields[i].value),
        None => None,
    }
}

/// The fields after setting `key` to `value`: the first field with the key takes the value,
/// else a field is added at the end.
pub open spec fn with_field(fields: Seq<FormField>, key: String, value: FormValue) -> Seq<FormField> {
    match field_index(fields, key@) {
        Some(i) => fields.update(i, FormField { key: fields[i].key, value }),
        None => fields.push(FormField { key, value }),
    }
}

/// Sets the value of a form field.
pub fn set_field(fields: &mut Vec<FormField>, key: String, value: FormValue)
    ensures
        final(fields)@ == with_field(old(fields)@, key, value),
{
    let mut i: usize = 0;
    while i < fields.len()
        invariant
            i <= fields.len(),
            fields@ == old(fields)@,
            forall|j: int| 0 <= j < i ==> fields@[j].key@ != key@,
        decreases fields.len() - i,
    {
        if fields[i].key == key {
            let ghost fs = fields@;
            proof {
                let c = field_index(fs, key@)->0;
                if c < i {
                    assert(fs[c].key@ != key@);
                }
                assert(c == i);
            }
            let old_key = fields[i].key.clone();
            fields.set(i, FormField { key: old_key, value });
            return ;
        }
        i = i + 1;
    }
    proof {
        assert(field_index(fields@, key@) is None);
    }
    fields.push(FormField { key, value });
}

} // verus!
