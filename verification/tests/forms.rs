use meshtui::forms::{
    build_forms, form_items, format_value, validate_value, FormItemKind, ValueFormat, ValueRange,
    MAX_FREQUENCY_OVERRIDE_BITS,
};
use meshtui::settings::{FormEnumVariant, FormId, FormValue, SettingsItem};
use meshtui::ui::settings::build_settings;

#[test]
fn the_settings_menu_lists_groups_and_forms() {
    let items = build_settings();
    assert_eq!(items.len(), 22);
    assert!(matches!(items[0], SettingsItem::Group { title: "Radio" }));
    assert!(matches!(items[1], SettingsItem::Form { title: "LoRa", id: FormId::RadioLora }));
    assert!(matches!(items[4], SettingsItem::Group { title: "Device" }));
    assert!(matches!(items[11], SettingsItem::Group { title: "Module" }));
    assert!(matches!(items[15], SettingsItem::Form { title: "Store & Forward", id: FormId::ModuleStoreAndForward }));
    assert!(matches!(items[20], SettingsItem::Group { title: "App" }));
    assert!(matches!(items[21], SettingsItem::Form { title: "UI", id: FormId::AppUi }));
}

#[test]
fn settings_item_constructors() {
    assert!(matches!(SettingsItem::group("X"), SettingsItem::Group { title: "X" }));
    assert!(matches!(SettingsItem::form("Y", FormId::DevicePower), SettingsItem::Form { title: "Y", id: FormId::DevicePower }));
    let v = FormEnumVariant::new("4/5", 5u32);
    assert_eq!(v.title, "4/5");
    assert_eq!(v.value, 5);
}

#[test]
fn the_forms_with_fields() {
    let forms = build_forms();
    assert_eq!(forms.len(), 2);
    assert_eq!(forms[0].0, FormId::RadioLora);
    assert_eq!(forms[0].1.len(), 15);
    assert_eq!(forms[1].0, FormId::AppUi);
    assert_eq!(forms[1].1[0].key, "paddings");
    assert_eq!(forms[1].1[0].description, None);
    assert!(form_items(FormId::ModuleMqtt).is_empty());
}

#[test]
fn the_lora_form() {
    let items = form_items(FormId::RadioLora);
    let keys: Vec<&str> = items.iter().map(|i| i.key).collect();
    assert_eq!(
        keys,
        vec![
            "region",
            "usePreset",
            "modemPreset",
            "bandwidth",
            "spreadFactor",
            "codingRate",
            "ignoreMqtt",
            "configOkToMqtt",
            "txEnabled",
            "overrideDutyCycle",
            "hopLimit",
            "channelNum",
            "sx126xRxBoostedGain",
            "overrideFrequency",
            "txPower",
        ]
    );
    assert_eq!(items[3].title, "Bandwidth *");
    assert_eq!(items[1].description, Some("If enabled then \"Bandwidth\", \"Spread Factor\" and \"Coding Rate\" fields will be ignored."));
    match &items[0].kind {
        FormItemKind::EnumOfInt32(regions) => {
            assert_eq!(regions.len(), 27);
            for (i, r) in regions.iter().enumerate() {
                assert_eq!(r.value, i as i32);
            }
            assert_eq!(regions[0].title, "UNSET");
            assert_eq!(regions[0].value, 0);
            assert_eq!(regions[1].title, "US");
        }
        _ => panic!("the region is a choice"),
    }
    match &items[2].kind {
        FormItemKind::EnumOfInt32(presets) => {
            assert_eq!(presets.len(), 10);
            for (i, p) in presets.iter().enumerate() {
                assert_eq!(p.value, i as i32);
            }
            assert_eq!(presets[0].title, "LONG_FAST");
            assert_eq!(presets[0].value, 0);
        }
        _ => panic!("the preset is a choice"),
    }
    match &items[10].kind {
        FormItemKind::EnumOfUnsignedInt32(hops) => {
            assert_eq!(hops.len(), 8);
            assert_eq!(hops[1].title, "1 hop");
            assert_eq!(hops[7].title, "7 hops");
            assert_eq!(hops[7].value, 7);
        }
        _ => panic!("the hop limit is a choice"),
    }
}

#[test]
fn values_are_shown_in_their_format() {
    assert_eq!(format_value(&ValueFormat::RegionName, &FormValue::Int32(1), ""), "US");
    assert_eq!(format_value(&ValueFormat::RegionName, &FormValue::Int32(999), ""), "?");
    assert_eq!(format_value(&ValueFormat::PresetName, &FormValue::Int32(0), ""), "LONG_FAST");
    let khz = ValueFormat::Affixed { prefix: "", suffix: " kHz" };
    assert_eq!(format_value(&khz, &FormValue::UnsignedInt32(250), ""), "250 kHz");
    let rate = ValueFormat::Affixed { prefix: "4/", suffix: "" };
    assert_eq!(format_value(&rate, &FormValue::UnsignedInt32(5), ""), "4/5");
    let dbm = ValueFormat::Affixed { prefix: "", suffix: " dBm" };
    assert_eq!(format_value(&dbm, &FormValue::Int32(-5), ""), "-5 dBm");
    assert_eq!(format_value(&ValueFormat::Plain, &FormValue::Bool(true), ""), "true");
    assert_eq!(format_value(&ValueFormat::Plain, &FormValue::Bool(false), ""), "false");
    assert_eq!(format_value(&ValueFormat::Plain, &FormValue::String("abc".to_string()), ""), "abc");
    let mhz = ValueFormat::Affixed { prefix: "", suffix: " MHz" };
    assert_eq!(format_value(&mhz, &FormValue::Float32(868.5f32.to_bits()), "868.5"), "868.5 MHz");
}

#[test]
fn values_are_checked_against_their_range() {
    let bandwidth = ValueRange::UnsignedInt32 { min: 31, max: 500 };
    assert_eq!(validate_value(&bandwidth, &FormValue::UnsignedInt32(30)), Err("Must be between 31 and 500".to_string()));
    assert_eq!(validate_value(&bandwidth, &FormValue::UnsignedInt32(31)), Ok(()));
    assert_eq!(validate_value(&bandwidth, &FormValue::UnsignedInt32(500)), Ok(()));
    let power = ValueRange::Int32 { min: -100, max: 100 };
    assert_eq!(validate_value(&power, &FormValue::Int32(-101)), Err("Must be between -100 and 100".to_string()));
    assert_eq!(validate_value(&power, &FormValue::Int32(-100)), Ok(()));
    assert_eq!(validate_value(&ValueRange::Any, &FormValue::Bool(true)), Ok(()));
}

#[test]
fn float_ranges_are_checked_on_the_bit_pattern() {
    assert_eq!(MAX_FREQUENCY_OVERRIDE_BITS, 2500.0f32.to_bits());
    let range = ValueRange::Float32UpTo { max_bits: MAX_FREQUENCY_OVERRIDE_BITS, max_text: "2500" };
    let check = |f: f32| validate_value(&range, &FormValue::Float32(f.to_bits()));
    assert_eq!(check(0.0), Ok(()));
    assert_eq!(check(-0.0), Ok(()));
    assert_eq!(check(868.5), Ok(()));
    assert_eq!(check(2500.0), Ok(()));
    assert_eq!(check(2500.5), Err("Must be between 0 and 2500".to_string()));
    assert_eq!(check(-1.0), Err("Must be between 0 and 2500".to_string()));
    assert_eq!(check(f32::NAN), Err("Must be between 0 and 2500".to_string()));
    assert_eq!(check(f32::INFINITY), Err("Must be between 0 and 2500".to_string()));
    for f in [0.0f32, -0.0, 1e-40, 100.25, 2499.99, 2500.0, 2500.01, -3.0, f32::NAN, f32::NEG_INFINITY] {
        assert_eq!(check(f).is_ok(), (0.0..=2500.0).contains(&f));
    }
}

#[test]
fn form_names() {
    assert_eq!(FormId::RadioLora.name(), "RadioLora");
    assert_eq!(FormId::ModuleExternalNotification.name(), "ModuleExternalNotification");
    assert_eq!(FormId::AppUi.name(), "AppUi");
}
