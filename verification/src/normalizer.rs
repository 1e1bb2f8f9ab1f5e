//! Scaling of absolute axes onto the Windows absolute coordinate range, and
//! the per-axis table of scalers that a device carries.
use vstd::prelude::*;
use crate::event::AbsAxis;

verus! {

/// The largest Windows absolute coordinate; `SendInput` maps 0..=65535 onto
/// the desktop.
pub const ABSOLUTE_MAX: i32 = 65535;

/// The Windows absolute coordinate of `value` on an axis ranging over
/// `min..=max`: the value is clamped into the range and scaled linearly so
/// that `min` maps to 0 and `max` to 65535. An empty or reversed range maps
/// everything to 0.
pub open spec fn normalized(min: int, max: int, value: int) -> int {
    if max <= min {
        0
    } else {
        let v = if value < min {
            min
        } else if value > max {
            max
        } else {
            value
        };
        (v - min) * 65535 / (max - min)
    }
}

/// Scales one absolute axis, built from the axis range the device reports.
#[derive(Clone, Copy, Debug, PartialEq, Eq, Structural)]
pub struct AxisNormalizer {
    pub min: i32,
    pub max: i32,
}

impl AxisNormalizer {
    pub fn new(min: i32, max: i32) -> (r: Self)
        ensures
            r.min == min,
            r.max == max,
    {
        AxisNormalizer { min, max }
    }

    /// The scaled value of `value`.
    pub open spec fn spec_normalize(self, value: int) -> int {
        normalized(self.min as int, self.max as int, value)
    }

    pub fn normalize(&self, value: i32) -> (r: i32)
        ensures
            r == self.spec_normalize(value as int),
    {
        if self.max <= self.min {
            return 0;
        }
        let v: i32 = if value < self.min {
            self.min
        } else if value > self.max {
            self.max
        } else {
            value
        };
        let num: u64 = (v as i64 - self.min as i64) as u64;
        let den: u64 = (self.max as i64 - self.min as i64) as u64;
        assert(num <= den);
        assert(num * 65535 <= den * 65535) by (nonlinear_arith)
            requires
                num <= den,
        ;
        let scaled: u64 = num * 65535;
        let q: u64 = scaled / den;
        assert(q <= 65535) by (nonlinear_arith)
            requires
                q == scaled / den,
                scaled <= den * 65535,
                den > 0,
        ;
        q as i32
    }
}

/// The scaled value always lies in the Windows absolute range.
pub proof fn lemma_normalized_in_range(min: int, max: int, value: int)
    ensures
        0 <= normalized(min, max, value) <= 65535,
{
    if max > min {
        let v = if value < min {
            min
        } else if value > max {
            max
        } else {
            value
        };
        let n = v - min;
        let d = max - min;
        assert(0 <= n * 65535 / d <= 65535) by (nonlinear_arith)
            requires
                0 <= n <= d,
                d > 0,
        ;
    }
}

/// The ends of a nonempty range map to the ends of the Windows range.
pub proof fn lemma_normalized_endpoints(min: int, max: int)
    requires
        min < max,
    ensures
        normalized(min, max, min) == 0,
        normalized(min, max, max) == 65535,
{
    let d = max - min;
    assert(d * 65535 / d == 65535) by (nonlinear_arith)
        requires
            d > 0,
    ;
}

/// Scaling keeps the order of values.
pub proof fn lemma_normalized_monotone(min: int, max: int, a: int, b: int)
    requires
        a <= b,
    ensures
        normalized(min, max, a) <= normalized(min, max, b),
{
    if max > min {
        let va = if a < min {
            min
        } else if a > max {
            max
        } else {
            a
        };
        let vb = if b < min {
            min
        } else if b > max {
            max
        } else {
            b
        };
        let d = max - min;
        assert((va - min) * 65535 / d <= (vb - min) * 65535 / d) by (nonlinear_arith)
            requires
                0 <= va - min <= vb - min,
                d > 0,
        ;
    }
}

/// The number of absolute axes.
pub const AXIS_COUNT: usize = 16;

/// The slot of an absolute axis in an `AxisTable`.
pub open spec fn axis_slot(axis: AbsAxis) -> int {
    match axis {
        AbsAxis::X => 0,
        AbsAxis::Y => 1,
        AbsAxis::Z => 2,
        AbsAxis::Rx => 3,
        AbsAxis::Ry => 4,
        AbsAxis::Rz => 5,
        AbsAxis::Throttle => 6,
        AbsAxis::Rudder => 7,
        AbsAxis::Wheel => 8,
        AbsAxis::Gas => 9,
        AbsAxis::Brake => 10,
        AbsAxis::Pressure => 11,
        AbsAxis::Distance => 12,
        AbsAxis::TiltX => 13,
        AbsAxis::TiltY => 14,
        AbsAxis::Misc => 15,
    }
}

fn axis_index(axis: &AbsAxis) -> (r: usize)
    ensures
        r == axis_slot(*axis),
        r < AXIS_COUNT,
{
    match axis {
        AbsAxis::X => 0,
        AbsAxis::Y => 1,
        AbsAxis::Z => 2,
        AbsAxis::Rx => 3,
        AbsAxis::Ry => 4,
        AbsAxis::Rz => 5,
        AbsAxis::Throttle => 6,
        AbsAxis::Rudder => 7,
        AbsAxis::Wheel => 8,
        AbsAxis::Gas => 9,
        AbsAxis::Brake => 10,
        AbsAxis::Pressure => 11,
        AbsAxis::Distance => 12,
        AbsAxis::TiltX => 13,
        AbsAxis::TiltY => 14,
        AbsAxis::Misc => 15,
    }
}

proof fn lemma_axis_slot_injective(a: AbsAxis, b: AbsAxis)
    ensures
        axis_slot(a) == axis_slot(b) ==> a == b,
        0 <= axis_slot(a) < AXIS_COUNT,
{
}

/// A map from absolute axes to their scalers, one slot per axis.
#[derive(Clone, Copy, Debug)]
pub struct AxisTable {
    slots: [Option<AxisNormalizer>; 16],
}

impl AxisTable {
    /// The axes that have a scaler, with their scalers.
    pub closed spec fn view(&self) -> Map<AbsAxis, AxisNormalizer> {
        Map::new(
            |a: AbsAxis| self.slots@[axis_slot(a)] is Some,
            |a: AbsAxis| self.slots@[axis_slot(a)].unwrap(),
        )
    }

    pub fn new() -> (r: Self)
        ensures
            r@ == Map::<AbsAxis, AxisNormalizer>::empty(),
    {
        let r = AxisTable { slots: [None; 16] };
        assert(r@ =~= Map::<AbsAxis, AxisNormalizer>::empty()) by {
            assert forall|a: AbsAxis| !r@.contains_key(a) by {
                lemma_axis_slot_injective(a, a);
                assert(r.slots@[axis_slot(a)] is None);
            }
        }
        r
    }

    pub fn get(&self, axis: &AbsAxis) -> (r: Option<AxisNormalizer>)
        ensures
            r == (if self@.contains_key(*axis) {
                Some(self@[*axis])
            } else {
                None
            }),
    {
        let i = axis_index(axis);
        self.slots[i]
    }

    pub fn insert(&mut self, axis: AbsAxis, normalizer: AxisNormalizer)
        ensures
            final(self)@ == old(self)@.insert(axis, normalizer),
    {
        let i = axis_index(&axis);
        self.slots[i] = Some(normalizer);
        proof {
            assert forall|b: AbsAxis| #![auto] axis_slot(b) == axis_slot(axis) ==> b == axis by {
                lemma_axis_slot_injective(b, axis);
            }
            assert forall|b: AbsAxis| 0 <= #[trigger] axis_slot(b) < AXIS_COUNT by {
                lemma_axis_slot_injective(b, b);
            }
            assert(self@ =~= old(self)@.insert(axis, normalizer));
        }
    }
}

/// Scaling is linear on the range: a value `v` in `min..=max` lands at
/// `(v - min) * 65535 / (max - min)`, the same fraction of the Windows range
/// as of the axis range (rounded down).
pub proof fn lemma_normalized_linear(min: int, max: int, v: int)
    requires
        min < max,
        min <= v <= max,
    ensures
        normalized(min, max, v) == (v - min) * 65535 / (max - min),
        normalized(min, max, v) * (max - min) <= (v - min) * 65535 < (normalized(min, max, v)
            + 1) * (max - min),
{
    let d = max - min;
    let n = (v - min) * 65535;
    vstd::arithmetic::div_mod::lemma_fundamental_div_mod(n, d);
    assert(0 <= n % d < d) by {
        vstd::arithmetic::div_mod::lemma_mod_pos_bound(n, d);
    }
    assert(normalized(min, max, v) * d + n % d == n) by (nonlinear_arith)
        requires
            normalized(min, max, v) == n / d,
            n == d * (n / d) + n % d,
    ;
    assert((normalized(min, max, v) + 1) * d == normalized(min, max, v) * d + d) by (nonlinear_arith);
}

/// On an axis no wider than the Windows range, distinct values in the range
/// land on distinct coordinates, in the same order.
pub proof fn lemma_normalized_strictly_increasing(min: int, max: int, a: int, b: int)
    requires
        min < max,
        max - min <= 65535,
        min <= a < b <= max,
    ensures
        normalized(min, max, a) < normalized(min, max, b),
{
    lemma_normalized_linear(min, max, a);
    lemma_normalized_linear(min, max, b);
    let d = max - min;
    let na = normalized(min, max, a);
    let nb = normalized(min, max, b);
    assert((b - min) * 65535 >= (a - min) * 65535 + d) by (nonlinear_arith)
        requires
            b - min >= a - min + 1,
            d <= 65535,
    ;
    assert(na < nb) by (nonlinear_arith)
        requires
            na * d <= (a - min) * 65535 < (na + 1) * d,
            nb * d <= (b - min) * 65535 < (nb + 1) * d,
            (b - min) * 65535 >= (a - min) * 65535 + d,
            d > 0,
    ;
}

} // verus!
