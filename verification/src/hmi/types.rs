use vstd::prelude::*;

verus! {

/// Maximum number of actions per button event (pressed/released).
pub const MAX_KEY_ACTIONS: usize = 5;

/// Maximum number of knob value mappings.
pub const MAX_KNOB_VALUES: usize = 8;

/// Maximum HID key codes in one keyboard report.
pub const MAX_KEY_CODES: usize = 6;

/// What a button press/release triggers.
#[derive(Debug, Clone, PartialEq)]
pub enum KeyAction {
    /// Does nothing.
    NoAction,
    Midi { channel: u8, cc: u8, val: u8 },
    Keyboard { key_codes: Vec<u8> },
    Mouse { buttons: u8 },
    Gamepad { buttons: u8 },
    ProfileChange { profile: String },
    ProfileNext,
    ProfilePrev,
}

/// Actions mapped to a single button.
#[derive(Debug, Clone, PartialEq)]
pub struct KeyMapping {
    pub pressed: Vec<KeyAction>,
    pub released: Vec<KeyAction>,
}

impl Default for KeyMapping {
    fn default() -> (m: Self)
        ensures
            m.pressed@.len() == 0,
            m.released@.len() == 0,
    {
        KeyMapping { pressed: Vec::new(), released: Vec::new() }
    }
}

/// What type of output a knob value produces.
#[derive(Debug, Clone, Copy, PartialEq, Eq, Structural)]
pub enum KnobValueType {
    Midi,
    Mouse,
    Gamepad,
    Actions,
    Profiles,
}

/// Output configuration for a knob value.
#[derive(Debug, Clone, Copy, PartialEq, Eq, Structural)]
pub enum KnobOutput {
    Midi { channel: u8, cc: u8 },
    Mouse { axis: u8 },
    Gamepad { axis: u8 },
}

/// A knob value mapping: maps a knob angle range to an output value.
///
/// The real-valued range and step are carried as IEEE-754 single-precision
/// bit patterns; only the value mapping interprets them.
#[derive(Debug, Clone, Copy, PartialEq, Eq, Structural)]
pub struct KnobValue {
    /// Bitmask of keys that must be held for this mapping to be active.
    pub key_state: u8,
    /// Output value range.
    pub value_min_bits: u32,
    pub value_max_bits: u32,
    /// Quantization step (0 = continuous).
    pub step_bits: u32,
    /// Wrap around at limits.
    pub wrap: bool,
    /// Output configuration.
    pub output: KnobOutput,
}

/// Bit pattern of 127.0, the upper end of a knob range when none is given.
pub const DEFAULT_VALUE_MAX_BITS: u32 = 0x42FE0000;

/// Upper end of a knob range when none is given: 127.0.
pub fn default_value_max() -> (bits: u32)
    ensures
        bits == DEFAULT_VALUE_MAX_BITS,
{
    DEFAULT_VALUE_MAX_BITS
}

/// All knob value mappings for a profile.
#[derive(Debug, Clone, PartialEq)]
pub struct KnobMapping {
    pub values: Vec<KnobValue>,
}

impl Default for KnobMapping {
    fn default() -> (m: Self)
        ensures
            m.values@.len() == 0,
    {
        KnobMapping { values: Vec::new() }
    }
}

/// Full HMI configuration for a profile.
#[derive(Debug, Clone, PartialEq)]
pub struct HmiConfig {
    /// Per-button key mappings (4 buttons).
    pub keys: Vec<KeyMapping>,
    /// Knob value mappings.
    pub knob: KnobMapping,
}

/// Key mappings used when a configuration gives none: one empty mapping
/// for each of the four buttons.
pub fn default_key_mappings() -> (keys: Vec<KeyMapping>)
    ensures
        keys@.len() == 4,
        forall|i: int|
            0 <= i < 4 ==> (#[trigger] keys@[i]).pressed@.len() == 0 && keys@[i].released@.len()
                == 0,
{
    let mut keys = Vec::new();
    keys.push(KeyMapping::default());
    keys.push(KeyMapping::default());
    keys.push(KeyMapping::default());
    keys.push(KeyMapping::default());
    keys
}

impl Default for HmiConfig {
    fn default() -> (c: Self)
        ensures
            c.keys@.len() == 4,
            forall|i: int|
                0 <= i < 4 ==> (#[trigger] c.keys@[i]).pressed@.len() == 0
                    && c.keys@[i].released@.len() == 0,
            c.knob.values@.len() == 0,
    {
        HmiConfig { keys: default_key_mappings(), knob: KnobMapping::default() }
    }
}

/// Index of the first mapping that `pred` accepts, if any.
pub open spec fn first_index(values: Seq<KnobValue>, pred: spec_fn(KnobValue) -> bool) -> Option<int>
    decreases values.len(),
{
    if values.len() == 0 {
        None
    } else {
        match first_index(values.drop_last(), pred) {
            Some(i) => Some(i),
            None => if pred(values.last()) {
                Some(values.len() - 1)
            } else {
                None
            },
        }
    }
}

/// A mapping bound to exactly this (non-empty) key combination.
pub open spec fn exact_for(key_state: u8) -> spec_fn(KnobValue) -> bool {
    |v: KnobValue| v.key_state != 0 && v.key_state == key_state
}

/// A mapping active regardless of held keys.
pub open spec fn always_active() -> spec_fn(KnobValue) -> bool {
    |v: KnobValue| v.key_state == 0
}

/// Index of the active mapping: the first bound to exactly `key_state`,
/// else the first that is always active.
pub open spec fn active_knob_index(values: Seq<KnobValue>, key_state: u8) -> Option<int> {
    match first_index(values, exact_for(key_state)) {
        Some(i) => Some(i),
        None => first_index(values, always_active()),
    }
}

proof fn lemma_first_index_step(values: Seq<KnobValue>, pred: spec_fn(KnobValue) -> bool, k: int)
    requires
        0 <= k < values.len(),
        first_index(values.take(k), pred) is None,
    ensures
        first_index(values.take(k + 1), pred) == (if pred(values[k]) {
            Some(k)
        } else {
            None::<int>
        }),
{
    assert(values.take(k + 1).drop_last() =~= values.take(k));
}

proof fn lemma_first_index_prefix(values: Seq<KnobValue>, pred: spec_fn(KnobValue) -> bool, k: int)
    requires
        0 <= k <= values.len(),
        first_index(values.take(k), pred) is Some,
    ensures
        first_index(values, pred) == first_index(values.take(k), pred),
    decreases values.len() - k,
{
    if k < values.len() {
        assert(values.take(k + 1).drop_last() =~= values.take(k));
        lemma_first_index_prefix(values, pred, k + 1);
    } else {
        assert(values.take(k) =~= values);
    }
}

fn find_first(values: &Vec<KnobValue>, key_state: u8, exact: bool) -> (r: Option<usize>)
    ensures
        r matches Some(i) ==> i < values@.len(),
        r matches Some(i) ==> first_index(
            values@,
            if exact {
                exact_for(key_state)
            } else {
                always_active()
            },
        ) == Some(i as int),
        r is None ==> first_index(
            values@,
            if exact {
                exact_for(key_state)
            } else {
                always_active()
            },
        ) is None,
{
    let ghost pred = if exact {
        exact_for(key_state)
    } else {
        always_active()
    };
    let mut i: usize = 0;
    while i < values.len()
        invariant
            0 <= i <= values@.len(),
            first_index(values@.take(i as int), pred) is None,
            pred == (if exact {
                exact_for(key_state)
            } else {
                always_active()
            }),
        decreases values@.len() - i,
    {
        let v = values[i];
        let hit = if exact {
            v.key_state != 0 && v.key_state == key_state
        } else {
            v.key_state == 0
        };
        proof {
            lemma_first_index_step(values@, pred, i as int);
        }
        if hit {
            proof {
                lemma_first_index_prefix(values@, pred, i + 1);
            }
            return Some(i);
        }
        i = i + 1;
    }
    assert(values@.take(i as int) =~= values@);
    None
}

/// Find the active knob value mapping for the current key state.
/// Returns the first mapping bound to exactly this key state, falling back
/// to the first one with `key_state == 0` (always active).
pub fn find_active_knob_value(knob: &KnobMapping, key_state: u8) -> (r: Option<&KnobValue>)
    ensures
        r is Some <==> active_knob_index(knob.values@, key_state) is Some,
        r matches Some(v) ==> *v == knob.values@[active_knob_index(knob.values@, key_state)->0],
{
    // First try exact match on key_state
    if let Some(i) = find_first(&knob.values, key_state, true) {
        return Some(&knob.values[i]);
    }
    // Fall back to default (key_state == 0)
    if let Some(i) = find_first(&knob.values, key_state, false) {
        return Some(&knob.values[i]);
    }
    None
}

} // verus!
