//! The laws of the settings form's data as the store keeps it.

use vstd::prelude::*;

use crate::forms::{
    in_range, is_lora_form, range_fits, FormItem, MAX_FREQUENCY_OVERRIDE_BITS, NEGATIVE_ZERO_BITS,
};
use crate::settings::{field_index, field_value, with_field, FormField, FormValue};
use crate::state::{Clock, StateView};
use crate::store::{next_state, StateAction};

verus! {

spec fn first_field_from(fs: Seq<FormField>, key: Seq<char>, i: int) -> int
    decreases fs.len() - i,
{
    if i >= fs.len() || i < 0 {
        i
    } else if fs[i].key@ == key {
        i
    } else {
        first_field_from(fs, key, i + 1)
    }
}

proof fn lemma_first_field_from(fs: Seq<FormField>, key: Seq<char>, i: int, k: int)
    requires
        0 <= i <= k < fs.len(),
        fs[k].key@ == key,
    ensures
        i <= first_field_from(fs, key, i) <= k,
        fs[first_field_from(fs, key, i)].key@ == key,
        forall|j: int| i <= j < first_field_from(fs, key, i) ==> fs[j].key@ != key,
    decreases fs.len() - i,
{
    if fs[i].key@ != key {
        lemma_first_field_from(fs, key, i + 1, k);
    }
}

/// The position that `field_index` gives is that of the first field with the key, and there
/// is none exactly where no field has the key.
proof fn lemma_field_index(fs: Seq<FormField>, key: Seq<char>)
    ensures
        field_index(fs, key) matches Some(c) ==> 0 <= c < fs.len() && fs[c].key@ == key && (
        forall|j: int| 0 <= j < c ==> fs[j].key@ != key),
        field_index(fs, key) is None <==> (forall|j: int| 0 <= j < fs.len() ==> fs[j].key@ != key),
{
    if exists|k: int| 0 <= k < fs.len() && fs[k].key@ == key {
        let k = choose|k: int| 0 <= k < fs.len() && fs[k].key@ == key;
        lemma_first_field_from(fs, key, 0, k);
        let r = first_field_from(fs, key, 0);
        assert(0 <= r < fs.len() && fs[r].key@ == key && (forall|j: int|
            0 <= j < r ==> fs[j].key@ != key));
    }
}

/// Two lists of fields whose keys agree on the first list's positions, the second having no
/// further field with the key, give the key the same first position.
proof fn lemma_same_first_field(a: Seq<FormField>, b: Seq<FormField>, key: Seq<char>)
    requires
        a.len() <= b.len(),
        forall|j: int| 0 <= j < a.len() ==> #[trigger] b[j].key@ == a[j].key@,
        forall|j: int| a.len() <= j < b.len() ==> b[j].key@ != key,
    ensures
        field_index(b, key) == field_index(a, key),
{
    lemma_field_index(a, key);
    lemma_field_index(b, key);
    match (field_index(a, key), field_index(b, key)) {
        (Some(x), Some(y)) => {
            if x < y {
                assert(b[x].key@ == a[x].key@);
            } else if y < x {
                assert(b[y].key@ == a[y].key@);
            }
        },
        (Some(x), None) => {
            assert(b[x].key@ == a[x].key@);
        },
        (None, Some(y)) => {
            assert(b[y].key@ == a[y].key@);
        },
        (None, None) => {},
    }
}

/// Setting a value of the open settings form and then reading the form gives the value set
/// for that key, and the value it had before for every other key; no field is lost.
#[verifier::spinoff_prover]
pub proof fn law_form_value_set_then_read(
    pre: StateView,
    key: String,
    value: FormValue,
    other: Seq<char>,
    now: Clock,
)
    requires
        pre.settings_form_data is Some,
    ensures
        ({
            let before = pre.settings_form_data->0;
            let post = next_state(pre, StateAction::SettingsFormValueSet { key, value }, now);
            &&& post.settings_form_data matches Some(after) && {
                &&& field_value(after, key@) == Some(value)
                &&& other != key@ ==> field_value(after, other) == field_value(before, other)
                &&& after.len() >= before.len()
            }
        }),
{
    let before = pre.settings_form_data->0;
    let after = with_field(before, key, value);
    let post = next_state(pre, StateAction::SettingsFormValueSet { key, value }, now);
    reveal(next_state);
    assert(post.settings_form_data == Some(after));
    lemma_field_index(before, key@);
    match field_index(before, key@) {
        Some(c) => {
            assert forall|j: int| 0 <= j < before.len() implies #[trigger] after[j].key@
                == before[j].key@ by {}
            lemma_same_first_field(before, after, key@);
            lemma_same_first_field(before, after, other);
            lemma_field_index(before, other);
            if other != key@ {
                if let Some(d) = field_index(before, other) {
                    assert(d != c);
                    assert(after[d] == before[d]);
                }
            }
            assert(after[c].value == value);
            assert(field_value(after, key@) == Some(value));
        },
        None => {
            let n = FormField { key, value };
            assert(after == before.push(n));
            assert forall|j: int| 0 <= j < before.len() implies #[trigger] after[j].key@
                == before[j].key@ by {}
            if other != key@ {
                lemma_same_first_field(before, after, other);
                lemma_field_index(before, other);
                if let Some(d) = field_index(before, other) {
                    assert(after[d] == before[d]);
                }
            }
            lemma_field_index(after, key@);
            assert(after[before.len() as int].key@ == key@);
            let c = field_index(after, key@)->0;
            if c < before.len() {
                assert(after[c].key@ == before[c].key@);
            }
            assert(c == before.len());
            assert(field_value(after, key@) == Some(value));
        },
    }
}

/// The values the LoRa form accepts for the field with `key`, bounds included: a bandwidth from
/// 31 to 500, a spread factor from 5 to 12, a frequency slot up to 20, a transmit power from
/// -100 to 100, and a frequency override from 0 to 2500 (a single-precision number, by its bit
/// pattern: at most that of 2500, or negative zero); any value of any other field.
pub open spec fn lora_value_accepted(key: Seq<char>, v: FormValue) -> bool {
    if key == "bandwidth"@ {
        v matches FormValue::UnsignedInt32(x) && 31 <= x <= 500
    } else if key == "spreadFactor"@ {
        v matches FormValue::UnsignedInt32(x) && 5 <= x <= 12
    } else if key == "channelNum"@ {
        v matches FormValue::UnsignedInt32(x) && x <= 20
    } else if key == "txPower"@ {
        v matches FormValue::Int32(x) && -100 <= x <= 100
    } else if key == "overrideFrequency"@ {
        v matches FormValue::Float32(bits) && (bits <= MAX_FREQUENCY_OVERRIDE_BITS || bits
            == NEGATIVE_ZERO_BITS)
    } else {
        true
    }
}

/// Each field of the LoRa form (as `build_forms` and `form_items` give it) accepts, for a value
/// of its type, exactly the values its documented bounds allow, and every value where it has no
/// bounds; `validate_value` answers `Ok` exactly then.
pub proof fn law_lora_form_ranges(items: Seq<FormItem>, i: int, v: FormValue)
    requires
        is_lora_form(items),
        0 <= i < items.len(),
        range_fits(items[i].range, v),
    ensures
        in_range(items[i].range, v) <==> lora_value_accepted(items[i].key@, v),
{
    reveal_strlit("region");
    reveal_strlit("usePreset");
    reveal_strlit("modemPreset");
    reveal_strlit("bandwidth");
    reveal_strlit("spreadFactor");
    reveal_strlit("codingRate");
    reveal_strlit("ignoreMqtt");
    reveal_strlit("configOkToMqtt");
    reveal_strlit("txEnabled");
    reveal_strlit("overrideDutyCycle");
    reveal_strlit("hopLimit");
    reveal_strlit("channelNum");
    reveal_strlit("sx126xRxBoostedGain");
    reveal_strlit("overrideFrequency");
    reveal_strlit("txPower");
    if i == 0 {
        assert(items[i].key@ == "region"@);
        assert("region"@.len() != "bandwidth"@.len());
        assert("region"@ != "bandwidth"@);
        assert("region"@.len() != "spreadFactor"@.len());
        assert("region"@ != "spreadFactor"@);
        assert("region"@.len() != "channelNum"@.len());
        assert("region"@ != "channelNum"@);
        assert("region"@.len() != "txPower"@.len());
        assert("region"@ != "txPower"@);
        assert("region"@.len() != "overrideFrequency"@.len());
        assert("region"@ != "overrideFrequency"@);
    } else if i == 1 {
        assert(items[i].key@ == "usePreset"@);
        assert("usePreset"@[0] != "bandwidth"@[0]);
        assert("usePreset"@ != "bandwidth"@);
        assert("usePreset"@.len() != "spreadFactor"@.len());
        assert("usePreset"@ != "spreadFactor"@);
        assert("usePreset"@.len() != "channelNum"@.len());
        assert("usePreset"@ != "channelNum"@);
        assert("usePreset"@.len() != "txPower"@.len());
        assert("usePreset"@ != "txPower"@);
        assert("usePreset"@.len() != "overrideFrequency"@.len());
        assert("usePreset"@ != "overrideFrequency"@);
    } else if i == 2 {
        assert(items[i].key@ == "modemPreset"@);
        assert("modemPreset"@.len() != "bandwidth"@.len());
        assert("modemPreset"@ != "bandwidth"@);
        assert("modemPreset"@.len() != "spreadFactor"@.len());
        assert("modemPreset"@ != "spreadFactor"@);
        assert("modemPreset"@.len() != "channelNum"@.len());
        assert("modemPreset"@ != "channelNum"@);
        assert("modemPreset"@.len() != "txPower"@.len());
        assert("modemPreset"@ != "txPower"@);
        assert("modemPreset"@.len() != "overrideFrequency"@.len());
        assert("modemPreset"@ != "overrideFrequency"@);
    } else if i == 3 {
        assert(items[i].key@ == "bandwidth"@);
        assert("bandwidth"@.len() != "spreadFactor"@.len());
        assert("bandwidth"@ != "spreadFactor"@);
        assert("bandwidth"@.len() != "channelNum"@.len());
        assert("bandwidth"@ != "channelNum"@);
        assert("bandwidth"@.len() != "txPower"@.len());
        assert("bandwidth"@ != "txPower"@);
        assert("bandwidth"@.len() != "overrideFrequency"@.len());
        assert("bandwidth"@ != "overrideFrequency"@);
    } else if i == 4 {
        assert(items[i].key@ == "spreadFactor"@);
        assert("spreadFactor"@.len() != "bandwidth"@.len());
        assert("spreadFactor"@ != "bandwidth"@);
        assert("spreadFactor"@.len() != "channelNum"@.len());
        assert("spreadFactor"@ != "channelNum"@);
        assert("spreadFactor"@.len() != "txPower"@.len());
        assert("spreadFactor"@ != "txPower"@);
        assert("spreadFactor"@.len() != "overrideFrequency"@.len());
        assert("spreadFactor"@ != "overrideFrequency"@);
    } else if i == 5 {
        assert(items[i].key@ == "codingRate"@);
        assert("codingRate"@.len() != "bandwidth"@.len());
        assert("codingRate"@ != "bandwidth"@);
        assert("codingRate"@.len() != "spreadFactor"@.len());
        assert("codingRate"@ != "spreadFactor"@);
        assert("codingRate"@[1] != "channelNum"@[1]);
        assert("codingRate"@ != "channelNum"@);
        assert("codingRate"@.len() != "txPower"@.len());
        assert("codingRate"@ != "txPower"@);
        assert("codingRate"@.len() != "overrideFrequency"@.len());
        assert("codingRate"@ != "overrideFrequency"@);
    } else if i == 6 {
        assert(items[i].key@ == "ignoreMqtt"@);
        assert("ignoreMqtt"@.len() != "bandwidth"@.len());
        assert("ignoreMqtt"@ != "bandwidth"@);
        assert("ignoreMqtt"@.len() != "spreadFactor"@.len());
        assert("ignoreMqtt"@ != "spreadFactor"@);
        assert("ignoreMqtt"@[0] != "channelNum"@[0]);
        assert("ignoreMqtt"@ != "channelNum"@);
        assert("ignoreMqtt"@.len() != "txPower"@.len());
        assert("ignoreMqtt"@ != "txPower"@);
        assert("ignoreMqtt"@.len() != "overrideFrequency"@.len());
        assert("ignoreMqtt"@ != "overrideFrequency"@);
    } else if i == 7 {
        assert(items[i].key@ == "configOkToMqtt"@);
        assert("configOkToMqtt"@.len() != "bandwidth"@.len());
        assert("configOkToMqtt"@ != "bandwidth"@);
        assert("configOkToMqtt"@.len() != "spreadFactor"@.len());
        assert("configOkToMqtt"@ != "spreadFactor"@);
        assert("configOkToMqtt"@.len() != "channelNum"@.len());
        assert("configOkToMqtt"@ != "channelNum"@);
        assert("configOkToMqtt"@.len() != "txPower"@.len());
        assert("configOkToMqtt"@ != "txPower"@);
        assert("configOkToMqtt"@.len() != "overrideFrequency"@.len());
        assert("configOkToMqtt"@ != "overrideFrequency"@);
    } else if i == 8 {
        assert(items[i].key@ == "txEnabled"@);
        assert("txEnabled"@[0] != "bandwidth"@[0]);
        assert("txEnabled"@ != "bandwidth"@);
        assert("txEnabled"@.len() != "spreadFactor"@.len());
        assert("txEnabled"@ != "spreadFactor"@);
        assert("txEnabled"@.len() != "channelNum"@.len());
        assert("txEnabled"@ != "channelNum"@);
        assert("txEnabled"@.len() != "txPower"@.len());
        assert("txEnabled"@ != "txPower"@);
        assert("txEnabled"@.len() != "overrideFrequency"@.len());
        assert("txEnabled"@ != "overrideFrequency"@);
    } else if i == 9 {
        assert(items[i].key@ == "overrideDutyCycle"@);
        assert("overrideDutyCycle"@.len() != "bandwidth"@.len());
        assert("overrideDutyCycle"@ != "bandwidth"@);
        assert("overrideDutyCycle"@.len() != "spreadFactor"@.len());
        assert("overrideDutyCycle"@ != "spreadFactor"@);
        assert("overrideDutyCycle"@.len() != "channelNum"@.len());
        assert("overrideDutyCycle"@ != "channelNum"@);
        assert("overrideDutyCycle"@.len() != "txPower"@.len());
        assert("overrideDutyCycle"@ != "txPower"@);
        assert("overrideDutyCycle"@[8] != "overrideFrequency"@[8]);
        assert("overrideDutyCycle"@ != "overrideFrequency"@);
    } else if i == 10 {
        assert(items[i].key@ == "hopLimit"@);
        assert("hopLimit"@.len() != "bandwidth"@.len());
        assert("hopLimit"@ != "bandwidth"@);
        assert("hopLimit"@.len() != "spreadFactor"@.len());
        assert("hopLimit"@ != "spreadFactor"@);
        assert("hopLimit"@.len() != "channelNum"@.len());
        assert("hopLimit"@ != "channelNum"@);
        assert("hopLimit"@.len() != "txPower"@.len());
        assert("hopLimit"@ != "txPower"@);
        assert("hopLimit"@.len() != "overrideFrequency"@.len());
        assert("hopLimit"@ != "overrideFrequency"@);
    } else if i == 11 {
        assert(items[i].key@ == "channelNum"@);
        assert("channelNum"@.len() != "bandwidth"@.len());
        assert("channelNum"@ != "bandwidth"@);
        assert("channelNum"@.len() != "spreadFactor"@.len());
        assert("channelNum"@ != "spreadFactor"@);
        assert("channelNum"@.len() != "txPower"@.len());
        assert("channelNum"@ != "txPower"@);
        assert("channelNum"@.len() != "overrideFrequency"@.len());
        assert("channelNum"@ != "overrideFrequency"@);
    } else if i == 12 {
        assert(items[i].key@ == "sx126xRxBoostedGain"@);
        assert("sx126xRxBoostedGain"@.len() != "bandwidth"@.len());
        assert("sx126xRxBoostedGain"@ != "bandwidth"@);
        assert("sx126xRxBoostedGain"@.len() != "spreadFactor"@.len());
        assert("sx126xRxBoostedGain"@ != "spreadFactor"@);
        assert("sx126xRxBoostedGain"@.len() != "channelNum"@.len());
        assert("sx126xRxBoostedGain"@ != "channelNum"@);
        assert("sx126xRxBoostedGain"@.len() != "txPower"@.len());
        assert("sx126xRxBoostedGain"@ != "txPower"@);
        assert("sx126xRxBoostedGain"@.len() != "overrideFrequency"@.len());
        assert("sx126xRxBoostedGain"@ != "overrideFrequency"@);
    } else if i == 13 {
        assert(items[i].key@ == "overrideFrequency"@);
        assert("overrideFrequency"@.len() != "bandwidth"@.len());
        assert("overrideFrequency"@ != "bandwidth"@);
        assert("overrideFrequency"@.len() != "spreadFactor"@.len());
        assert("overrideFrequency"@ != "spreadFactor"@);
        assert("overrideFrequency"@.len() != "channelNum"@.len());
        assert("overrideFrequency"@ != "channelNum"@);
        assert("overrideFrequency"@.len() != "txPower"@.len());
        assert("overrideFrequency"@ != "txPower"@);
    } else if i == 14 {
        assert(items[i].key@ == "txPower"@);
        assert("txPower"@.len() != "bandwidth"@.len());
        assert("txPower"@ != "bandwidth"@);
        assert("txPower"@.len() != "spreadFactor"@.len());
        assert("txPower"@ != "spreadFactor"@);
        assert("txPower"@.len() != "channelNum"@.len());
        assert("txPower"@ != "channelNum"@);
        assert("txPower"@.len() != "overrideFrequency"@.len());
        assert("txPower"@ != "overrideFrequency"@);
    }
}

} // verus!
