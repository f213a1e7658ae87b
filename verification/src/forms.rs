use meshtastic::protobufs::config::lo_ra_config::{ModemPreset, RegionCode};
use strum::IntoEnumIterator;
use vstd::prelude::*;

use crate::settings::{FormEnumVariant, FormId, FormValue};
use crate::text::{decimal, decimal_string, signed_decimal, signed_decimal_string};

verus! {

/// The name of a LoRa region code, where the code is a region.
pub uninterp spec fn lora_region_name(code: i32) -> Option<Seq<char>>;

/// The name of a LoRa modem preset code, where the code is a preset.
pub uninterp spec fn lora_preset_name(code: i32) -> Option<Seq<char>>;

/// `RegionCode::try_from` then `as_str_name`: the name of the region with the code. The
/// result is named `lora_region_name`.
#[verifier::external_body]
fn region_name(code: i32) -> (r: Option<String>)
    ensures
        r is Some <==> lora_region_name(code) is Some,
        r matches Some(s) ==> s@ == lora_region_name(code)->0,
{
    RegionCode::try_from(code).ok().map(|v| v.as_str_name().to_owned())
}

/// `ModemPreset::try_from` then `as_str_name`: the name of the preset with the code. The
/// result is named `lora_preset_name`.
#[verifier::external_body]
fn preset_name(code: i32) -> (r: Option<String>)
    ensures
        r is Some <==> lora_preset_name(code) is Some,
        r matches Some(s) ==> s@ == lora_preset_name(code)->0,
{
    ModemPreset::try_from(code).ok().map(|v| v.as_str_name().to_owned())
}

/// `RegionCode::iter()` (strum's `EnumIter`): a choice for every region, in the order of the
/// enum's declaration, titled with the region's name and valued with its code. meshtastic's
/// `RegionCode` declares the codes 0 to 26 in increasing order.
#[verifier::external_body]
fn region_variants() -> (r: Vec<FormEnumVariant<i32>>)
    ensures
        r@.len() == LORA_REGION_COUNT,
        forall|i: int| 0 <= i < r@.len() ==> #[trigger] r@[i].value == i,
        forall|i: int|
            0 <= i < r@.len() ==> lora_region_name(#[trigger] r@[i].value) == Some(r@[i].title@),
{
    RegionCode::iter().map(|v| FormEnumVariant::new(v.as_str_name(), v as i32)).collect()
}

/// `ModemPreset::iter()` (strum's `EnumIter`): a choice for every modem preset, in the order
/// of the enum's declaration, titled with the preset's name and valued with its code.
/// meshtastic's `ModemPreset` declares the codes 0 to 9 in increasing order.
#[verifier::external_body]
fn preset_variants() -> (r: Vec<FormEnumVariant<i32>>)
    ensures
        r@.len() == LORA_PRESET_COUNT,
        forall|i: int| 0 <= i < r@.len() ==> #[trigger] r@[i].value == i,
        forall|i: int|
            0 <= i < r@.len() ==> lora_preset_name(#[trigger] r@[i].value) == Some(r@[i].title@),
{
    ModemPreset::iter().map(|v| FormEnumVariant::new(v.as_str_name(), v as i32)).collect()
}

/// How a form field is edited.
#[derive(Clone, Debug)]
pub enum FormItemKind {
    EnumOfInt32(Vec<FormEnumVariant<i32>>),
    EnumOfUnsignedInt32(Vec<FormEnumVariant<u32>>),
    Switch,
    InputOfInt32,
    InputOfUnsignedInt32,
    InputOfFloat32,
}

/// How a form field's value is shown: as its text, with text before and after it, or as the
/// name of the LoRa region or modem preset whose code it is.
#[derive(Clone, Copy, Debug)]
pub enum ValueFormat {
    Plain,
    Affixed { prefix: &'static str, suffix: &'static str },
    RegionName,
    PresetName,
}

/// Which values a form field accepts. `Float32UpTo` accepts the single-precision numbers from
/// zero to the number whose bit pattern is `max_bits`, which reads `max_text`.
#[derive(Clone, Copy, Debug)]
#[allow(inconsistent_fields)]
pub enum ValueRange {
    Any,
    Int32 { min: i32, max: i32 },
    UnsignedInt32 { min: u32, max: u32 },
    Float32UpTo { max_bits: u32, max_text: &'static str },
}

/// A field of a settings form.
#[derive(Clone, Debug)]
pub struct FormItem {
    pub key: &'static str,
    pub title: &'static str,
    pub description: Option<&'static str>,
    pub kind: FormItemKind,
    pub format: ValueFormat,
    pub range: ValueRange,
}

impl FormItem {
    pub fn new(
        key: &'static str,
        title: &'static str,
        description: Option<&'static str>,
        kind: FormItemKind,
        format: ValueFormat,
        range: ValueRange,
    ) -> (r: FormItem)
        ensures
            r == (FormItem { key, title, description, kind, format, range }),
    {
        FormItem { key, title, description, kind, format, range }
    }
}

/// The text of a value; a single-precision number reads `float_text`, which the caller
/// formats.
pub open spec fn value_text(value: FormValue, float_text: Seq<char>) -> Seq<char> {
    match value {
        FormValue::String(s) => s@,
        FormValue::Int32(i) => signed_decimal(i as int),
        FormValue::UnsignedInt32(u) => decimal(u as nat),
        FormValue::Float32(_) => float_text,
        FormValue::Bool(b) => if b {
            "true"@
        } else {
            "false"@
        },
    }
}

/// The value can be shown in the format: names are shown of 32-bit codes only.
pub open spec fn format_fits(format: ValueFormat, value: FormValue) -> bool {
    match format {
        ValueFormat::RegionName | ValueFormat::PresetName => value is Int32,
        _ => true,
    }
}

/// How a value is shown in a format; a code that names no region or preset shows as "?".
pub open spec fn formatted(format: ValueFormat, value: FormValue, float_text: Seq<char>) -> Seq<
    char,
> {
    match format {
        ValueFormat::Plain => value_text(value, float_text),
        ValueFormat::Affixed { prefix, suffix } => prefix@ + value_text(value, float_text)
            + suffix@,
        ValueFormat::RegionName => match lora_region_name(value->Int32_0) {
            Some(name) => name,
            None => "?"@,
        },
        ValueFormat::PresetName => match lora_preset_name(value->Int32_0) {
            Some(name) => name,
            None => "?"@,
        },
    }
}

fn text_of_value(value: &FormValue, float_text: &str) -> (r: String)
    ensures
        r@ == value_text(*value, float_text@),
{
    match value {
        FormValue::String(s) => s.clone(),
        FormValue::Int32(i) => signed_decimal_string(*i as i64),
        FormValue::UnsignedInt32(u) => decimal_string(*u as u64),
        FormValue::Float32(_) => float_text.to_owned(),
        FormValue::Bool(b) => if *b {
            "true".to_owned()
        } else {
            "false".to_owned()
        },
    }
}

/// Shows a field's value in the field's format. The text of a single-precision value is
/// `float_text`, which the caller formats.
pub fn format_value(format: &ValueFormat, value: &FormValue, float_text: &str) -> (r: String)
    requires
        format_fits(*format, *value),
    ensures
        r@ == formatted(*format, *value, float_text@),
{
    match format {
        ValueFormat::Plain => text_of_value(value, float_text),
        ValueFormat::Affixed { prefix, suffix } => {
            let s = (*prefix).to_owned().concat(text_of_value(value, float_text).as_str());
            s.concat(suffix)
        },
        ValueFormat::RegionName => {
            let code = match value {
                FormValue::Int32(c) => *c,
                _ => 0,
            };
            match region_name(code) {
                Some(name) => name,
                None => "?".to_owned(),
            }
        },
        ValueFormat::PresetName => {
            let code = match value {
                FormValue::Int32(c) => *c,
                _ => 0,
            };
            match preset_name(code) {
                Some(name) => name,
                None => "?".to_owned(),
            }
        },
    }
}

/// The value has the type that the range is about.
pub open spec fn range_fits(range: ValueRange, value: FormValue) -> bool {
    match range {
        ValueRange::Any => true,
        ValueRange::Int32 { .. } => value is Int32,
        ValueRange::UnsignedInt32 { .. } => value is UnsignedInt32,
        ValueRange::Float32UpTo { .. } => value is Float32,
    }
}

/// The bit pattern of negative zero.
pub const NEGATIVE_ZERO_BITS: u32 = 0x8000_0000;

/// The range accepts the value. A single-precision number lies between zero and a positive
/// bound exactly when its bit pattern is at most the bound's (the patterns of non-negative
/// numbers are ordered as the numbers are, and NaN and infinity lie above every finite bound's),
/// or it is negative zero, which equals zero.
pub open spec fn in_range(range: ValueRange, value: FormValue) -> bool {
    match (range, value) {
        (ValueRange::Int32 { min, max }, FormValue::Int32(v)) => min <= v <= max,
        (ValueRange::UnsignedInt32 { min, max }, FormValue::UnsignedInt32(v)) => min <= v <= max,
        (ValueRange::Float32UpTo { max_bits, .. }, FormValue::Float32(bits)) => bits <= max_bits
            || bits == NEGATIVE_ZERO_BITS,
        _ => true,
    }
}

/// The message for a value out of range.
pub open spec fn range_message(range: ValueRange) -> Seq<char> {
    match range {
        ValueRange::Int32 { min, max } => "Must be between "@ + signed_decimal(min as int)
            + " and "@ + signed_decimal(max as int),
        ValueRange::UnsignedInt32 { min, max } => "Must be between "@ + decimal(min as nat)
            + " and "@ + decimal(max as nat),
        ValueRange::Float32UpTo { max_text, .. } => "Must be between 0 and "@ + max_text@,
        ValueRange::Any => Seq::empty(),
    }
}

/// Checks a value against a field's range: `Ok` where the range accepts it, else the message.
pub fn validate_value(range: &ValueRange, value: &FormValue) -> (r: Result<(), String>)
    requires
        range_fits(*range, *value),
    ensures
        r is Ok <==> in_range(*range, *value),
        r matches Err(m) ==> m@ == range_message(*range),
{
    match (range, value) {
        (ValueRange::Int32 { min, max }, FormValue::Int32(v)) => {
            if *min <= *v && *v <= *max {
                Ok(())
            } else {
                let m = "Must be between ".to_owned().concat(signed_decimal_string(*min as i64).as_str());
                let m = m.concat(" and ");
                Err(m.concat(signed_decimal_string(*max as i64).as_str()))
            }
        },
        (ValueRange::UnsignedInt32 { min, max }, FormValue::UnsignedInt32(v)) => {
            if *min <= *v && *v <= *max {
                Ok(())
            } else {
                let m = "Must be between ".to_owned().concat(decimal_string(*min as u64).as_str());
                let m = m.concat(" and ");
                Err(m.concat(decimal_string(*max as u64).as_str()))
            }
        },
        (ValueRange::Float32UpTo { max_bits, max_text }, FormValue::Float32(bits)) => {
            if *bits <= *max_bits || *bits == NEGATIVE_ZERO_BITS {
                Ok(())
            } else {
                Err("Must be between 0 and ".to_owned().concat(max_text))
            }
        },
        _ => Ok(()),
    }
}

/// The bit pattern of 2500, the largest frequency override in MHz.
pub const MAX_FREQUENCY_OVERRIDE_BITS: u32 = 0x451C_4000;

pub const REGION_HELP: &'static str = "The region where you will be using your node.";

pub const USE_PRESET_HELP: &'static str =
    "If enabled then \"Bandwidth\", \"Spread Factor\" and \"Coding Rate\" fields will be ignored.";

pub const PRESET_HELP: &'static str = "The field only makes sense if \"Use Preset\" field is set to true.";

pub const BANDWIDTH_HELP: &'static str =
    "Certain bandwidth numbers are 'special' and will be converted to the appropriate floating point value: 31 -> 31.25 kHz. (*) The field only makes sense if \"Use Preset\" field is set to false.";

pub const SPREAD_FACTOR_HELP: &'static str =
    "A number from 5 to 12. Indicates number of chirps per symbol as 1<<spread_factor. (*) The field only makes sense if \"Use Preset\" field is set to false.";

pub const CODING_RATE_HELP: &'static str =
    "The denominator of the coding rate. (*) The field only makes sense if \"Use Preset\" field is set to false.";

pub const IGNORE_MQTT_HELP: &'static str =
    "If true, the device will not process any packets received via LoRa that passed via MQTT anywhere on the path towards it.";

pub const OK_TO_MQTT_HELP: &'static str = "Allow your packets to be published into MQTT.";

pub const TX_ENABLED_HELP: &'static str = "Disabling TX is useful for hot-swapping antennas and other tests.";

pub const OVERRIDE_DUTY_CYCLE_HELP: &'static str =
    "If true, duty cycle limits will be exceeded and thus you're possibly not following the local regulations if you're not a HAM. Has no effect if the duty cycle of the used region is 100%.";

pub const HOP_LIMIT_HELP: &'static str =
    "Sets the maximum number of hops, default is 3. Increasing hops also increases congestion and should be used carefully. 0 hop broadcast messages will not get ACKs.";

pub const CHANNEL_NUM_HELP: &'static str =
    "Your node's operating frequency is calculated based on the region, modem preset, and this field. When 0, the slot is automatically calculated based on the primary channel name and will change from the default public slot. Change back to the public default slot if private primary and public secondary channels are configured.";

pub const RX_BOOSTED_GAIN_HELP: &'static str =
    "This is an option specific to the SX126x chip series which allows the chip to consume a small amount of additional power to increase RX sensitivity.";

pub const OVERRIDE_FREQUENCY_HELP: &'static str =
    "This parameter is for advanced users and licensed HAM radio operators. When enabled, the channel calculation will be ignored, and the set frequency will be used instead (frequency_offset still applies). This will allow you to use out-of-band frequencies.";

pub const TX_POWER_HELP: &'static str =
    "In dBm. If zero, then use default max legal continuous power (i.e. something that won't burn out the radio hardware).";

/// The field has the given key, title, description, format and range.
pub open spec fn item_is(
    it: FormItem,
    key: Seq<char>,
    title: Seq<char>,
    description: Option<&'static str>,
    format: ValueFormat,
    range: ValueRange,
) -> bool {
    &&& it.key@ == key
    &&& it.title@ == title
    &&& it.description == description
    &&& it.format == format
    &&& it.range == range
}

/// The choices are the codes 0 to `count - 1`, in order, each titled with the name of its code.
pub open spec fn named_choices(
    vs: Seq<FormEnumVariant<i32>>,
    count: int,
    name: spec_fn(i32) -> Option<Seq<char>>,
) -> bool {
    &&& vs.len() == count
    &&& forall|i: int| 0 <= i < vs.len() ==> #[trigger] vs[i].value == i
    &&& forall|i: int| 0 <= i < vs.len() ==> name(#[trigger] vs[i].value) == Some(vs[i].title@)
}

/// Number of LoRa region codes: `RegionCode` declares the codes 0 to 26.
pub const LORA_REGION_COUNT: usize = 27;

/// Number of LoRa modem preset codes: `ModemPreset` declares the codes 0 to 9.
pub const LORA_PRESET_COUNT: usize = 10;

/// The choices have the given titles and values, in order.
pub open spec fn choices_are(vs: Seq<FormEnumVariant<u32>>, titles: Seq<Seq<char>>, values: Seq<u32>) -> bool {
    &&& vs.len() == titles.len() == values.len()
    &&& forall|i: int| 0 <= i < vs.len() ==> vs[i].title@ == titles[i] && vs[i].value == values[i]
}

/// The fields of the LoRa form, in order.
pub open spec fn is_lora_form(items: Seq<FormItem>) -> bool {
    &&& items.len() == 15
    &&& item_is(items[0], "region"@, "Region"@, Some(REGION_HELP), ValueFormat::RegionName, ValueRange::Any)
    &&& items[0].kind matches FormItemKind::EnumOfInt32(vs) && named_choices(vs@, LORA_REGION_COUNT as int, |c: i32| lora_region_name(c))
    &&& item_is(items[1], "usePreset"@, "Use Preset"@, Some(USE_PRESET_HELP), ValueFormat::Plain, ValueRange::Any)
    &&& items[1].kind is Switch
    &&& item_is(items[2], "modemPreset"@, "Preset"@, Some(PRESET_HELP), ValueFormat::PresetName, ValueRange::Any)
    &&& items[2].kind matches FormItemKind::EnumOfInt32(vs) && named_choices(vs@, LORA_PRESET_COUNT as int, |c: i32| lora_preset_name(c))
    &&& item_is(items[3], "bandwidth"@, "Bandwidth *"@, Some(BANDWIDTH_HELP),
        ValueFormat::Affixed { prefix: "", suffix: " kHz" }, ValueRange::UnsignedInt32 { min: 31, max: 500 })
    &&& items[3].kind is InputOfUnsignedInt32
    &&& item_is(items[4], "spreadFactor"@, "Spread Factor *"@, Some(SPREAD_FACTOR_HELP), ValueFormat::Plain,
        ValueRange::UnsignedInt32 { min: 5, max: 12 })
    &&& items[4].kind is InputOfUnsignedInt32
    &&& item_is(items[5], "codingRate"@, "Coding Rate *"@, Some(CODING_RATE_HELP),
        ValueFormat::Affixed { prefix: "4/", suffix: "" }, ValueRange::Any)
    &&& items[5].kind matches FormItemKind::EnumOfUnsignedInt32(vs) && choices_are(
        vs@,
        seq!["4/5"@, "4/6"@, "4/7"@, "4/8"@],
        seq![5u32, 6, 7, 8],
    )
    &&& item_is(items[6], "ignoreMqtt"@, "Ignore MQTT"@, Some(IGNORE_MQTT_HELP), ValueFormat::Plain, ValueRange::Any)
    &&& items[6].kind is Switch
    &&& item_is(items[7], "configOkToMqtt"@, "OK to MQTT"@, Some(OK_TO_MQTT_HELP), ValueFormat::Plain, ValueRange::Any)
    &&& items[7].kind is Switch
    &&& item_is(items[8], "txEnabled"@, "Transmit Enabled"@, Some(TX_ENABLED_HELP), ValueFormat::Plain, ValueRange::Any)
    &&& items[8].kind is Switch
    &&& item_is(items[9], "overrideDutyCycle"@, "Override Duty Cycle"@, Some(OVERRIDE_DUTY_CYCLE_HELP),
        ValueFormat::Plain, ValueRange::Any)
    &&& items[9].kind is Switch
    &&& item_is(items[10], "hopLimit"@, "Hops Limit"@, Some(HOP_LIMIT_HELP),
        ValueFormat::Affixed { prefix: "", suffix: " hop(s)" }, ValueRange::Any)
    &&& items[10].kind matches FormItemKind::EnumOfUnsignedInt32(vs) && choices_are(
        vs@,
        seq!["0 hops"@, "1 hop"@, "2 hops"@, "3 hops"@, "4 hops"@, "5 hops"@, "6 hops"@, "7 hops"@],
        seq![0u32, 1, 2, 3, 4, 5, 6, 7],
    )
    &&& item_is(items[11], "channelNum"@, "Frequency Slot"@, Some(CHANNEL_NUM_HELP), ValueFormat::Plain,
        ValueRange::UnsignedInt32 { min: 0, max: 20 })
    &&& items[11].kind is InputOfUnsignedInt32
    &&& item_is(items[12], "sx126xRxBoostedGain"@, "RX Boosted Gain"@, Some(RX_BOOSTED_GAIN_HELP),
        ValueFormat::Plain, ValueRange::Any)
    &&& items[12].kind is Switch
    &&& item_is(items[13], "overrideFrequency"@, "Frequency Override"@, Some(OVERRIDE_FREQUENCY_HELP),
        ValueFormat::Affixed { prefix: "", suffix: " MHz" },
        ValueRange::Float32UpTo { max_bits: MAX_FREQUENCY_OVERRIDE_BITS, max_text: "2500" })
    &&& items[13].kind is InputOfFloat32
    &&& item_is(items[14], "txPower"@, "Transmit Power"@, Some(TX_POWER_HELP),
        ValueFormat::Affixed { prefix: "", suffix: " dBm" }, ValueRange::Int32 { min: -100i32, max: 100 })
    &&& items[14].kind is InputOfInt32
}

/// The fields of the interface form.
pub open spec fn is_app_ui_form(items: Seq<FormItem>) -> bool {
    &&& items.len() == 1
    &&& item_is(items[0], "paddings"@, "Hide global padding"@, None, ValueFormat::Plain, ValueRange::Any)
    &&& items[0].kind is Switch
}

fn lora_form() -> (r: Vec<FormItem>)
    ensures
        is_lora_form(r@),
{
    let mut coding_rates: Vec<FormEnumVariant<u32>> = Vec::new();
    coding_rates.push(FormEnumVariant::new("4/5", 5));
    coding_rates.push(FormEnumVariant::new("4/6", 6));
    coding_rates.push(FormEnumVariant::new("4/7", 7));
    coding_rates.push(FormEnumVariant::new("4/8", 8));
    let mut hop_limits: Vec<FormEnumVariant<u32>> = Vec::new();
    hop_limits.push(FormEnumVariant::new("0 hops", 0));
    hop_limits.push(FormEnumVariant::new("1 hop", 1));
    hop_limits.push(FormEnumVariant::new("2 hops", 2));
    hop_limits.push(FormEnumVariant::new("3 hops", 3));
    hop_limits.push(FormEnumVariant::new("4 hops", 4));
    hop_limits.push(FormEnumVariant::new("5 hops", 5));
    hop_limits.push(FormEnumVariant::new("6 hops", 6));
    hop_limits.push(FormEnumVariant::new("7 hops", 7));
    let mut items: Vec<FormItem> = Vec::new();
    items.push(FormItem::new("region", "Region", Some(REGION_HELP),
        FormItemKind::EnumOfInt32(region_variants()), ValueFormat::RegionName, ValueRange::Any));
    items.push(FormItem::new("usePreset", "Use Preset", Some(USE_PRESET_HELP), FormItemKind::Switch,
        ValueFormat::Plain, ValueRange::Any));
    items.push(FormItem::new("modemPreset", "Preset", Some(PRESET_HELP),
        FormItemKind::EnumOfInt32(preset_variants()), ValueFormat::PresetName, ValueRange::Any));
    items.push(FormItem::new("bandwidth", "Bandwidth *", Some(BANDWIDTH_HELP),
        FormItemKind::InputOfUnsignedInt32, ValueFormat::Affixed { prefix: "", suffix: " kHz" },
        ValueRange::UnsignedInt32 { min: 31, max: 500 }));
    items.push(FormItem::new("spreadFactor", "Spread Factor *", Some(SPREAD_FACTOR_HELP),
        FormItemKind::InputOfUnsignedInt32, ValueFormat::Plain,
        ValueRange::UnsignedInt32 { min: 5, max: 12 }));
    items.push(FormItem::new("codingRate", "Coding Rate *", Some(CODING_RATE_HELP),
        FormItemKind::EnumOfUnsignedInt32(coding_rates), ValueFormat::Affixed { prefix: "4/", suffix: "" },
        ValueRange::Any));
    items.push(FormItem::new("ignoreMqtt", "Ignore MQTT", Some(IGNORE_MQTT_HELP), FormItemKind::Switch,
        ValueFormat::Plain, ValueRange::Any));
    items.push(FormItem::new("configOkToMqtt", "OK to MQTT", Some(OK_TO_MQTT_HELP), FormItemKind::Switch,
        ValueFormat::Plain, ValueRange::Any));
    items.push(FormItem::new("txEnabled", "Transmit Enabled", Some(TX_ENABLED_HELP), FormItemKind::Switch,
        ValueFormat::Plain, ValueRange::Any));
    items.push(FormItem::new("overrideDutyCycle", "Override Duty Cycle", Some(OVERRIDE_DUTY_CYCLE_HELP),
        FormItemKind::Switch, ValueFormat::Plain, ValueRange::Any));
    items.push(FormItem::new("hopLimit", "Hops Limit", Some(HOP_LIMIT_HELP),
        FormItemKind::EnumOfUnsignedInt32(hop_limits), ValueFormat::Affixed { prefix: "", suffix: " hop(s)" },
        ValueRange::Any));
    items.push(FormItem::new("channelNum", "Frequency Slot", Some(CHANNEL_NUM_HELP),
        FormItemKind::InputOfUnsignedInt32, ValueFormat::Plain,
        ValueRange::UnsignedInt32 { min: 0, max: 20 }));
    items.push(FormItem::new("sx126xRxBoostedGain", "RX Boosted Gain", Some(RX_BOOSTED_GAIN_HELP),
        FormItemKind::Switch, ValueFormat::Plain, ValueRange::Any));
    items.push(FormItem::new("overrideFrequency", "Frequency Override", Some(OVERRIDE_FREQUENCY_HELP),
        FormItemKind::InputOfFloat32, ValueFormat::Affixed { prefix: "", suffix: " MHz" },
        ValueRange::Float32UpTo { max_bits: MAX_FREQUENCY_OVERRIDE_BITS, max_text: "2500" }));
    items.push(FormItem::new("txPower", "Transmit Power", Some(TX_POWER_HELP), FormItemKind::InputOfInt32,
        ValueFormat::Affixed { prefix: "", suffix: " dBm" }, ValueRange::Int32 { min: -100, max: 100 }));
    proof {
        assert(choices_are(items@[5].kind->EnumOfUnsignedInt32_0@, seq!["4/5"@, "4/6"@, "4/7"@, "4/8"@],
            seq![5u32, 6, 7, 8]));
    }
    items
}

fn app_ui_form() -> (r: Vec<FormItem>)
    ensures
        is_app_ui_form(r@),
{
    let mut items: Vec<FormItem> = Vec::new();
    items.push(FormItem::new("paddings", "Hide global padding", None, FormItemKind::Switch,
        ValueFormat::Plain, ValueRange::Any));
    items
}

/// The fields of a settings form: the LoRa form and the interface form have fields; the other
/// forms have none yet.
pub fn form_items(id: FormId) -> (r: Vec<FormItem>)
    ensures
        id == FormId::RadioLora ==> is_lora_form(r@),
        id == FormId::AppUi ==> is_app_ui_form(r@),
        id != FormId::RadioLora && id != FormId::AppUi ==> r@.len() == 0,
{
    match id {
        FormId::RadioLora => lora_form(),
        FormId::AppUi => app_ui_form(),
        _ => Vec::new(),
    }
}

/// The settings forms that have fields, with their fields: the LoRa form, then the interface
/// form.
pub fn build_forms() -> (r: Vec<(FormId, Vec<FormItem>)>)
    ensures
        r@.len() == 2,
        r@[0].0 == FormId::RadioLora,
        is_lora_form(r@[0].1@),
        r@[1].0 == FormId::AppUi,
        is_app_ui_form(r@[1].1@),
{
    let mut forms: Vec<(FormId, Vec<FormItem>)> = Vec::new();
    forms.push((FormId::RadioLora, form_items(FormId::RadioLora)));
    forms.push((FormId::AppUi, form_items(FormId::AppUi)));
    forms
}

} // verus!
