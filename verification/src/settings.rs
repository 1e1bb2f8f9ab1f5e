//! What a device declares when it is created (its relative axes, its
//! absolute axis ranges and its key-repeat timing) and what the Windows side
//! keeps of it.
use vstd::prelude::*;
use crate::event::{AbsAxis, AbsInfo, RelAxis};
use crate::normalizer::{AxisNormalizer, AxisTable};

verus! {

/// What is kept of a device's declaration.
pub struct DeviceSettings {
    /// The device has a high-resolution vertical wheel.
    pub hi_wheel: bool,
    /// The device has a high-resolution horizontal wheel.
    pub hi_hwheel: bool,
    /// The absolute axes that are scaled, with their scalers.
    pub axes: Map<AbsAxis, AxisNormalizer>,
    /// Key-repeat delay in milliseconds.
    pub repeat_delay_ms: u64,
    /// Key-repeat period in milliseconds.
    pub repeat_period_ms: u64,
}

/// The settings of a device that has declared nothing yet.
pub open spec fn empty_settings() -> DeviceSettings {
    DeviceSettings {
        hi_wheel: false,
        hi_hwheel: false,
        axes: Map::empty(),
        repeat_delay_ms: 0,
        repeat_period_ms: 0,
    }
}

/// The scaler table after declaring `items` in order, a later declaration of
/// an axis replacing an earlier one.
pub open spec fn with_axes(
    axes: Map<AbsAxis, AxisNormalizer>,
    items: Seq<(AbsAxis, AbsInfo)>,
) -> Map<AbsAxis, AxisNormalizer>
    decreases items.len(),
{
    if items.len() == 0 {
        axes
    } else {
        with_axes(axes, items.drop_last()).insert(
            items.last().0,
            AxisNormalizer { min: items.last().1.min, max: items.last().1.max },
        )
    }
}

/// A key-repeat time after declaring `value`: a positive value in
/// milliseconds replaces `current`; none, zero or a negative value keeps it.
pub open spec fn repeat_ms(current: u64, value: Option<i32>) -> u64 {
    match value {
        Some(ms) => if ms > 0 {
            ms as u64
        } else {
            current
        },
        None => current,
    }
}

proof fn lemma_push_contains<A>(s: Seq<A>, x: A)
    ensures
        forall|y: A| #[trigger] s.push(x).contains(y) <==> (s.contains(y) || x == y),
{
    assert forall|y: A| #[trigger] s.push(x).contains(y) <==> (s.contains(y) || x == y) by {
        if s.push(x).contains(y) {
            let j = choose|j: int| 0 <= j < s.push(x).len() && s.push(x)[j] == y;
            if j < s.len() {
                assert(s[j] == y);
            }
        }
        if s.contains(y) {
            let j = choose|j: int| 0 <= j < s.len() && s[j] == y;
            assert(s.push(x)[j] == y);
        }
        if x == y {
            assert(s.push(x)[s.len() as int] == y);
        }
    }
}

/// The settings after declaring relative axes: only the high-resolution
/// wheels matter.
pub open spec fn declare_rel(s: DeviceSettings, items: Seq<RelAxis>) -> DeviceSettings {
    DeviceSettings {
        hi_wheel: s.hi_wheel || items.contains(RelAxis::WheelHiRes),
        hi_hwheel: s.hi_hwheel || items.contains(RelAxis::HWheelHiRes),
        ..s
    }
}

/// The settings after declaring absolute axes with their ranges.
pub open spec fn declare_abs(s: DeviceSettings, items: Seq<(AbsAxis, AbsInfo)>) -> DeviceSettings {
    DeviceSettings { axes: with_axes(s.axes, items), ..s }
}

/// The settings after declaring the key-repeat delay.
pub open spec fn declare_delay(s: DeviceSettings, value: Option<i32>) -> DeviceSettings {
    DeviceSettings { repeat_delay_ms: repeat_ms(s.repeat_delay_ms, value), ..s }
}

/// The settings after declaring the key-repeat period.
pub open spec fn declare_period(s: DeviceSettings, value: Option<i32>) -> DeviceSettings {
    DeviceSettings { repeat_period_ms: repeat_ms(s.repeat_period_ms, value), ..s }
}

/// Whether the declared relative axes include the high-resolution vertical
/// and horizontal wheels.
pub fn hi_res_wheels(items: &Vec<RelAxis>) -> (r: (bool, bool))
    ensures
        r.0 == items@.contains(RelAxis::WheelHiRes),
        r.1 == items@.contains(RelAxis::HWheelHiRes),
{
    let mut hi_wheel = false;
    let mut hi_hwheel = false;
    let mut i: usize = 0;
    while i < items.len()
        invariant
            i <= items@.len(),
            hi_wheel == items@.take(i as int).contains(RelAxis::WheelHiRes),
            hi_hwheel == items@.take(i as int).contains(RelAxis::HWheelHiRes),
        decreases items@.len() - i,
    {
        proof {
            lemma_push_contains(items@.take(i as int), items@[i as int]);
            assert(items@.take(i + 1) =~= items@.take(i as int).push(items@[i as int]));
        }
        match items[i] {
            RelAxis::WheelHiRes => hi_wheel = true,
            RelAxis::HWheelHiRes => hi_hwheel = true,
            _ => {},
        }
        i = i + 1;
    }
    assert(items@.take(i as int) =~= items@);
    (hi_wheel, hi_hwheel)
}

/// Adds a scaler to `table` for each declared absolute axis, in order.
pub fn add_axes(table: &mut AxisTable, items: &Vec<(AbsAxis, AbsInfo)>)
    ensures
        final(table)@ == with_axes(old(table)@, items@),
{
    let ghost start = table@;
    let mut i: usize = 0;
    while i < items.len()
        invariant
            i <= items@.len(),
            table@ == with_axes(start, items@.take(i as int)),
        decreases items@.len() - i,
    {
        let (axis, info) = items[i];
        assert(items@.take(i + 1).drop_last() =~= items@.take(i as int));
        table.insert(axis, AxisNormalizer::new(info.min, info.max));
        i = i + 1;
    }
    assert(items@.take(i as int) =~= items@);
}

/// The key-repeat time in milliseconds after declaring `value`.
pub fn repeat_millis(current: u64, value: Option<i32>) -> (r: u64)
    ensures
        r == repeat_ms(current, value),
{
    match value {
        Some(ms) => if ms > 0 {
            ms as u64
        } else {
            current
        },
        None => current,
    }
}

} // verus!
