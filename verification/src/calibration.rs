//! Calibration mapper: converts a raw ADC code into a potentiometer angle by
//! clamped linear interpolation over a fixed calibration table, and the angle
//! into a volume percentage.

use vstd::prelude::*;

verus! {

/// Smallest angle in the calibration table.
pub const MIN_ANGLE: u16 = 0;
/// Largest angle in the calibration table.
pub const MAX_ANGLE: u16 = 280;
/// Raw code of the first table entry.
pub const MIN_VALUE: u16 = 10;
/// Raw code of the last table entry.
pub const MAX_VALUE: u16 = 26227;
/// Number of entries in the calibration table.
pub const TABLE_LEN: usize = 28;

/// The calibration table entry at index `i`: an (angle, raw code) pair.
pub open spec fn entry(i: int) -> (u16, u16) {
    if i == 0 {
        (0u16, 10u16)
    } else if i == 1 {
        (10u16, 20u16)
    } else if i == 2 {
        (20u16, 280u16)
    } else if i == 3 {
        (25u16, 1200u16)
    } else if i == 4 {
        (30u16, 2600u16)
    } else if i == 5 {
        (40u16, 4700u16)
    } else if i == 6 {
        (50u16, 7500u16)
    } else if i == 7 {
        (60u16, 10000u16)
    } else if i == 8 {
        (70u16, 13500u16)
    } else if i == 9 {
        (80u16, 14900u16)
    } else if i == 10 {
        (90u16, 15800u16)
    } else if i == 11 {
        (100u16, 16600u16)
    } else if i == 12 {
        (110u16, 17200u16)
    } else if i == 13 {
        (120u16, 17700u16)
    } else if i == 14 {
        (130u16, 18400u16)
    } else if i == 15 {
        (140u16, 18700u16)
    } else if i == 16 {
        (150u16, 18800u16)
    } else if i == 17 {
        (160u16, 19000u16)
    } else if i == 18 {
        (170u16, 19002u16)
    } else if i == 19 {
        (180u16, 19250u16)
    } else if i == 20 {
        (190u16, 20080u16)
    } else if i == 21 {
        (200u16, 21082u16)
    } else if i == 22 {
        (210u16, 21880u16)
    } else if i == 23 {
        (220u16, 23550u16)
    } else if i == 24 {
        (230u16, 24680u16)
    } else if i == 25 {
        (240u16, 25730u16)
    } else if i == 26 {
        (250u16, 26226u16)
    } else {
        (280u16, 26227u16)
    }
}

/// The calibration table: (angle, raw code) pairs, strictly increasing in
/// both fields.
pub open spec fn table() -> Seq<(u16, u16)> {
    Seq::new(TABLE_LEN as nat, |i: int| entry(i))
}

proof fn lemma_table_adjacent()
    ensures
        forall|i: int|
            0 <= i < table().len() - 1 ==> (#[trigger] table()[i]).0 < table()[i + 1].0
                && table()[i].1 < table()[i + 1].1,
{
    assert forall|i: int|
        0 <= i < table().len() - 1 implies (#[trigger] table()[i]).0 < table()[i + 1].0
        && table()[i].1 < table()[i + 1].1 by {
        assert(table()[i] == entry(i));
        assert(table()[i + 1] == entry(i + 1));
    }
}

proof fn lemma_table_trans(i: int, j: int)
    requires
        0 <= i < j < table().len(),
    ensures
        table()[i].0 < table()[j].0,
        table()[i].1 < table()[j].1,
    decreases j - i,
{
    lemma_table_adjacent();
    if j > i + 1 {
        lemma_table_trans(i, j - 1);
    }
}

/// The calibration table is strictly increasing in both the angle and the
/// raw code, has 28 entries, and runs from (MIN_ANGLE, MIN_VALUE) to
/// (MAX_ANGLE, MAX_VALUE).
pub proof fn lemma_table_sorted()
    ensures
        table().len() == TABLE_LEN,
        table()[0] == (MIN_ANGLE, MIN_VALUE),
        table()[table().len() - 1] == (MAX_ANGLE, MAX_VALUE),
        forall|i: int, j: int|
            0 <= i < j < table().len() ==> (#[trigger] table()[i]).0 < (#[trigger] table()[j]).0
                && table()[i].1 < table()[j].1,
{
    assert forall|i: int, j: int| 0 <= i < j < table().len() implies (#[trigger] table()[i]).0
        < (#[trigger] table()[j]).0 && table()[i].1 < table()[j].1 by {
        lemma_table_trans(i, j);
    }
}

/// Linear interpolation with truncating integer division between the table
/// points (la, lr) and (ua, ur), evaluated at raw code `code`.
pub open spec fn interp(la: int, lr: int, ua: int, ur: int, code: int) -> int {
    la + (ua - la) * (code - lr) / (ur - lr)
}

/// The first table index at or after `i` whose raw code is >= `code`, or the
/// table length if there is none.
pub open spec fn first_at_or_above(code: int, i: int) -> int
    decreases table().len() - i,
{
    if i < 0 || i >= table().len() {
        table().len() as int
    } else if table()[i].1 >= code {
        i
    } else {
        first_at_or_above(code, i + 1)
    }
}

/// The angle a raw code maps to: clamped to the table's ends, the entry's own
/// angle on an exact raw-code match, and otherwise linear interpolation
/// between the two neighbouring entries.
pub open spec fn spec_angle_of(code: int) -> int {
    if code <= MIN_VALUE {
        MIN_ANGLE as int
    } else if code >= MAX_VALUE {
        MAX_ANGLE as int
    } else {
        let i = first_at_or_above(code, 0);
        if table()[i].1 == code {
            table()[i].0 as int
        } else {
            interp(
                table()[i - 1].0 as int,
                table()[i - 1].1 as int,
                table()[i].0 as int,
                table()[i].1 as int,
                code,
            )
        }
    }
}

/// `first_at_or_above(code, k)` is `i` exactly when the raw codes before `i`
/// (from `k` on) are below `code` and the one at `i` is not.
proof fn lemma_first_from(code: int, k: int, i: int)
    requires
        0 <= k <= i < table().len(),
        table()[i].1 >= code,
        forall|j: int| k <= j < i ==> (#[trigger] table()[j]).1 < code,
    ensures
        first_at_or_above(code, k) == i,
    decreases i - k,
{
    if k < i {
        lemma_first_from(code, k + 1, i);
    }
}

proof fn lemma_first_bounds(code: int, k: int)
    requires
        0 <= k <= table().len(),
    ensures
        k <= first_at_or_above(code, k) <= table().len(),
        first_at_or_above(code, k) < table().len() ==> table()[first_at_or_above(code, k)].1
            >= code,
        forall|j: int|
            k <= j < first_at_or_above(code, k) ==> (#[trigger] table()[j]).1 < code,
    decreases table().len() - k,
{
    if k < table().len() && table()[k].1 < code {
        lemma_first_bounds(code, k + 1);
    }
}

/// The interpolated angle lies between the two bounding angles.
proof fn lemma_interp_bounds(la: int, lr: int, ua: int, ur: int, code: int)
    requires
        0 <= la <= ua,
        lr < code < ur,
    ensures
        la <= interp(la, lr, ua, ur, code) <= ua,
{
    let m = ua - la;
    let x = code - lr;
    let d = ur - lr;
    vstd::arithmetic::div_mod::lemma_div_pos_is_pos(m * x, d);
    assert(m * x <= m * d) by (nonlinear_arith)
        requires
            0 <= m,
            0 <= x,
            x <= d,
    ;
    vstd::arithmetic::div_mod::lemma_div_is_ordered(m * x, m * d, d);
    vstd::arithmetic::div_mod::lemma_div_multiples_vanish(m, d);
    assert(m * d == d * m);
    assert(m * x / d <= m);
}

/// For a raw code strictly between two consecutive table entries, the angle
/// lies between those entries' angles: interpolation is monotonic.
pub proof fn lemma_angle_between_entries(code: int, i: int)
    requires
        0 <= i,
        i + 1 < table().len(),
        table()[i].1 < code < table()[i + 1].1,
    ensures
        table()[i].0 <= spec_angle_of(code) <= table()[i + 1].0,
{
    lemma_table_sorted();
    assert forall|j: int| 0 <= j < i + 1 implies (#[trigger] table()[j]).1 < code by {
        if j < i {
            lemma_table_trans(j, i);
        }
    }
    lemma_first_from(code, 0, i + 1);
    lemma_interp_bounds(
        table()[i].0 as int,
        table()[i].1 as int,
        table()[i + 1].0 as int,
        table()[i + 1].1 as int,
        code,
    );
}

/// Every raw code maps to an angle within the table's angle span.
pub proof fn lemma_angle_range(code: int)
    ensures
        MIN_ANGLE <= spec_angle_of(code) <= MAX_ANGLE,
{
    lemma_table_sorted();
    if MIN_VALUE < code < MAX_VALUE {
        let i = first_at_or_above(code, 0);
        lemma_first_bounds(code, 0);
        assert(table()[table().len() - 1].1 >= code);
        assert(i < table().len());
        if table()[i].1 == code {
            if i < table().len() - 1 {
                lemma_table_trans(i, table().len() - 1);
            }
        } else {
            assert(i >= 1) by {
                assert(table()[0].1 == MIN_VALUE < code);
            }
            lemma_interp_bounds(
                table()[i - 1].0 as int,
                table()[i - 1].1 as int,
                table()[i].0 as int,
                table()[i].1 as int,
                code,
            );
            if i < table().len() - 1 {
                lemma_table_trans(i, table().len() - 1);
            }
        }
    }
}

proof fn lemma_interp_monotone(la: int, lr: int, ua: int, ur: int, c1: int, c2: int)
    requires
        0 <= la <= ua,
        lr < c1 <= c2 < ur,
    ensures
        interp(la, lr, ua, ur, c1) <= interp(la, lr, ua, ur, c2),
{
    let m = ua - la;
    let d = ur - lr;
    assert(m * (c1 - lr) <= m * (c2 - lr)) by (nonlinear_arith)
        requires
            0 <= m,
            c1 - lr <= c2 - lr,
    ;
    vstd::arithmetic::div_mod::lemma_div_is_ordered(m * (c1 - lr), m * (c2 - lr), d);
}

/// The angle never decreases as the raw code increases: the calibration
/// mapping is monotonic over the whole code range.
pub proof fn lemma_angle_monotone(c1: int, c2: int)
    requires
        c1 <= c2,
    ensures
        spec_angle_of(c1) <= spec_angle_of(c2),
{
    lemma_table_sorted();
    lemma_angle_range(c1);
    lemma_angle_range(c2);
    if MIN_VALUE < c1 && c2 < MAX_VALUE && c1 < c2 {
        let i1 = first_at_or_above(c1, 0);
        let i2 = first_at_or_above(c2, 0);
        lemma_first_bounds(c1, 0);
        lemma_first_bounds(c2, 0);
        assert(table()[table().len() - 1].1 == MAX_VALUE >= c2);
        assert(i1 < table().len() && i2 < table().len());
        assert(i1 >= 1 && i2 >= 1) by {
            assert(table()[0].1 == MIN_VALUE < c1);
        }
        assert(i1 <= i2) by {
            if i2 < i1 {
                assert(table()[i2].1 < c1 <= c2);
            }
        }
        if i1 == i2 {
            let la = table()[i1 - 1].0 as int;
            let lr = table()[i1 - 1].1 as int;
            let ua = table()[i1].0 as int;
            let ur = table()[i1].1 as int;
            lemma_table_trans(i1 - 1, i1);
            if table()[i1].1 == c2 {
                if table()[i1].1 != c1 {
                    lemma_interp_bounds(la, lr, ua, ur, c1);
                }
            } else {
                lemma_interp_monotone(la, lr, ua, ur, c1, c2);
            }
        } else {
            // c1's segment ends at or before c2's segment begins
            if table()[i1].1 != c1 {
                lemma_table_trans(i1 - 1, i1);
                lemma_interp_bounds(
                    table()[i1 - 1].0 as int,
                    table()[i1 - 1].1 as int,
                    table()[i1].0 as int,
                    table()[i1].1 as int,
                    c1,
                );
            }
            assert(spec_angle_of(c1) <= table()[i1].0);
            if table()[i2].1 != c2 {
                lemma_table_trans(i2 - 1, i2);
                lemma_interp_bounds(
                    table()[i2 - 1].0 as int,
                    table()[i2 - 1].1 as int,
                    table()[i2].0 as int,
                    table()[i2].1 as int,
                    c2,
                );
            } else {
                lemma_table_trans(i2 - 1, i2);
            }
            assert(table()[i2 - 1].0 <= spec_angle_of(c2));
            if i1 < i2 - 1 {
                lemma_table_trans(i1, i2 - 1);
            }
        }
    }
}

/// The volume percentage never increases as the raw code increases.
pub proof fn lemma_volume_antitone_in_code(c1: int, c2: int)
    requires
        c1 <= c2,
    ensures
        spec_volume_percent(spec_angle_of(c1)) >= spec_volume_percent(spec_angle_of(c2)),
{
    lemma_angle_monotone(c1, c2);
    lemma_angle_range(c1);
    lemma_angle_range(c2);
    lemma_volume_percent_antitone(spec_angle_of(c1), spec_angle_of(c2));
}

/// Map a raw ADC code to a calibrated angle: clamped at the table's ends,
/// exact on table entries, linearly interpolated in between.
pub fn measurement_to_angle(val: u16) -> (angle: u16)
    ensures
        angle as int == spec_angle_of(val as int),
        MIN_ANGLE <= angle <= MAX_ANGLE,
        val <= MIN_VALUE ==> angle == MIN_ANGLE,
        val >= MAX_VALUE ==> angle == MAX_ANGLE,
        forall|i: int|
            0 <= i < table().len() && (#[trigger] table()[i]).1 == val ==> angle == table()[i].0,
{
    proof {
        lemma_table_sorted();
    }
    // Lower and upper bounds
    if val <= MIN_VALUE {
        proof {
            assert forall|i: int|
                0 <= i < table().len() && (#[trigger] table()[i]).1 == val implies MIN_ANGLE
                == table()[i].0 by {
                if i > 0 {
                    lemma_table_trans(0, i);
                }
            }
        }
        return MIN_ANGLE;
    }
    if val >= MAX_VALUE {
        proof {
            assert forall|i: int|
                0 <= i < table().len() && (#[trigger] table()[i]).1 == val implies MAX_ANGLE
                == table()[i].0 by {
                if i < table().len() - 1 {
                    lemma_table_trans(i, table().len() - 1);
                }
            }
        }
        return MAX_ANGLE;
    }

    let v = table_vec();
    let n = v.len();
    let mut i: usize = 0;
    while i < n
        invariant
            v@ == table(),
            n == table().len(),
            0 <= i <= n,
            MIN_VALUE < val < MAX_VALUE,
            forall|j: int| 0 <= j < i ==> (#[trigger] table()[j]).1 < val,
        decreases n - i,
    {
        if v[i].1 == val {
            // We found an exact match
            proof {
                lemma_table_sorted();
                lemma_first_from(val as int, 0, i as int);
                assert forall|j: int|
                    0 <= j < table().len() && (#[trigger] table()[j]).1 == val implies table()[
                    i as int].0 == table()[j].0 by {
                    if j < i {
                        assert(table()[j].1 < val);
                    } else if j > i {
                        lemma_table_trans(i as int, j);
                    }
                }
                if i < table().len() - 1 {
                    lemma_table_trans(i as int, table().len() - 1);
                }
            }
            return v[i].0;
        } else if v[i].1 > val {
            // The measurement is between the previous and the current entry.
            proof {
                lemma_table_sorted();
                assert(i >= 1);
                lemma_first_from(val as int, 0, i as int);
            }
            let lower = v[i - 1];
            let upper = v[i];
            proof {
                lemma_interp_bounds(
                    lower.0 as int,
                    lower.1 as int,
                    upper.0 as int,
                    upper.1 as int,
                    val as int,
                );
                assert((upper.0 - lower.0) as int * (val - lower.1) as int <= 65535 * 65535)
                    by (nonlinear_arith)
                    requires
                        0 <= (upper.0 - lower.0) as int <= 65535,
                        0 <= (val - lower.1) as int <= 65535,
                ;
                if i < table().len() - 1 {
                    lemma_table_trans(i as int, table().len() - 1);
                }
            }
            // Interpolate between the two angles.
            let angle = ((upper.0 - lower.0) as u32 * (val - lower.1) as u32
                / (upper.1 - lower.1) as u32 + lower.0 as u32) as u16;
            proof {
                assert forall|j: int|
                    0 <= j < table().len() && (#[trigger] table()[j]).1 == val implies angle
                    == table()[j].0 by {
                    if j < i {
                        assert(table()[j].1 < val);
                    } else {
                        lemma_table_trans(i as int - 1, j);
                    }
                }
            }
            return angle;
        }
        i += 1;
    }
    proof {
        assert(table()[table().len() - 1].1 < val);
        assert(false);
    }
    MAX_ANGLE
}

/// The volume percentage an angle maps to: the angle's position within the
/// table's angle span, inverted because the sensor is mounted opposite to the
/// direction of perceived loudness.
pub open spec fn spec_volume_percent(angle: int) -> int {
    100 - (angle - MIN_ANGLE) * 100 / (MAX_ANGLE - MIN_ANGLE)
}

/// The volume percentage decreases as the angle increases.
pub proof fn lemma_volume_percent_antitone(a1: int, a2: int)
    requires
        MIN_ANGLE <= a1 <= a2 <= MAX_ANGLE,
    ensures
        spec_volume_percent(a1) >= spec_volume_percent(a2),
{
    vstd::arithmetic::div_mod::lemma_div_is_ordered(
        (a1 - MIN_ANGLE) * 100,
        (a2 - MIN_ANGLE) * 100,
        (MAX_ANGLE - MIN_ANGLE) as int,
    );
}

/// The volume percentage stays within [0, 100] over the table's angle span,
/// and is exactly 100 at the smallest table angle and 0 at the largest.
pub proof fn lemma_volume_percent_range(a: int)
    requires
        MIN_ANGLE <= a <= MAX_ANGLE,
    ensures
        0 <= spec_volume_percent(a) <= 100,
        a == MIN_ANGLE ==> spec_volume_percent(a) == 100,
        a == MAX_ANGLE ==> spec_volume_percent(a) == 0,
{
    vstd::arithmetic::div_mod::lemma_div_pos_is_pos(
        (a - MIN_ANGLE) * 100,
        (MAX_ANGLE - MIN_ANGLE) as int,
    );
    vstd::arithmetic::div_mod::lemma_div_is_ordered(
        (a - MIN_ANGLE) * 100,
        (MAX_ANGLE - MIN_ANGLE) * 100,
        (MAX_ANGLE - MIN_ANGLE) as int,
    );
}

/// Convert a raw input measurement to a volume percentage between 0 and 100.
pub fn map_potentiometer_value(val: u16) -> (vol: u8)
    ensures
        vol as int == spec_volume_percent(spec_angle_of(val as int)),
        vol <= 100,
{
    let angle = measurement_to_angle(val);
    proof {
        lemma_volume_percent_range(angle as int);
    }
    let percent = (angle - MIN_ANGLE) * 100 / (MAX_ANGLE - MIN_ANGLE);
    assert(percent <= 100);
    100 - percent as u8
}

/// The calibration table as an executable vector.
pub fn table_vec() -> (v: Vec<(u16, u16)>)
    ensures
        v@ == table(),
{
    let mut v: Vec<(u16, u16)> = Vec::new();
    v.push((0, 10));
    v.push((10, 20));
    v.push((20, 280));
    v.push((25, 1200));
    v.push((30, 2600));
    v.push((40, 4700));
    v.push((50, 7500));
    v.push((60, 10000));
    v.push((70, 13500));
    v.push((80, 14900));
    v.push((90, 15800));
    v.push((100, 16600));
    v.push((110, 17200));
    v.push((120, 17700));
    v.push((130, 18400));
    v.push((140, 18700));
    v.push((150, 18800));
    v.push((160, 19000));
    v.push((170, 19002));
    v.push((180, 19250));
    v.push((190, 20080));
    v.push((200, 21082));
    v.push((210, 21880));
    v.push((220, 23550));
    v.push((230, 24680));
    v.push((240, 25730));
    v.push((250, 26226));
    v.push((280, 26227));
    proof {
        assert(v@ =~= table());
    }
    v
}

} // verus!

