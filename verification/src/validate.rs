//! Validation rules for the mapping configuration.
//!
//! Out-of-range values are reported as warnings rather than hard errors; the
//! configuration is never modified.  Each rule returns its warnings in the
//! order the fields are checked.

use vstd::prelude::*;

use crate::config::{
    ButtonMapConfig, CalibrationConfig, HatConfig, LayerConfig, BUTTON_COUNT, BUTTON_COUNT_U8,
    SMOOTHING_MAX, VIRTUAL_BUTTON_COUNT,
};
use crate::input::PovDirection;
use crate::text::{dec, int_text, push_decimal, push_int};
use vstd::string::StringExecFns;

verus! {

/// The four physical axes, in report order.
#[derive(Debug, Clone, Copy, PartialEq, Eq, Structural)]
pub enum AxisName {
    X,
    Y,
    Rz,
    Slider,
}

/// A problem found in the configuration.
#[derive(Debug, Clone, Copy, PartialEq, Eq, Structural)]
pub enum ConfigWarning {
    /// An axis smoothing window outside `1..=SMOOTHING_MAX`.
    SmoothingOutOfRange { axis: AxisName, value: u8 },
    /// An explicit button mapping whose virtual target is past the last
    /// virtual button (31); it has no effect.
    ButtonOutOfRange { physical: u8, virtual_button: u8 },
    /// Two explicitly remapped physical buttons share a virtual target.
    ButtonShadowed { first: u8, second: u8, virtual_button: u8 },
    /// The shift button is past the last physical button.
    ShiftButtonOutOfRange { shift_button: u8 },
    /// Two layer-2 physical buttons share a virtual target.
    LayerButtonShadowed { first: u8, second: u8, virtual_button: u8 },
    /// A hat direction's virtual button is past the last virtual button.
    HatButtonOutOfRange { direction: PovDirection, index: u8 },
    /// A calibration range whose minimum is not below its maximum.
    CalibrationDegenerate { axis: AxisName, min: i16, max: i16 },
}

// ── Messages ──────────────────────────────────────────────────────────────────

/// The config-file section of an axis.
pub open spec fn axis_section(axis: AxisName) -> Seq<char> {
    match axis {
        AxisName::X => "axis_x"@,
        AxisName::Y => "axis_y"@,
        AxisName::Rz => "axis_rz"@,
        AxisName::Slider => "axis_slider"@,
    }
}

fn axis_section_str(axis: AxisName) -> (s: &'static str)
    ensures
        s@ == axis_section(axis),
{
    match axis {
        AxisName::X => "axis_x",
        AxisName::Y => "axis_y",
        AxisName::Rz => "axis_rz",
        AxisName::Slider => "axis_slider",
    }
}

/// The calibration key prefix of an axis.
pub open spec fn calibration_section(axis: AxisName) -> Seq<char> {
    match axis {
        AxisName::X => "calibration.x"@,
        AxisName::Y => "calibration.y"@,
        AxisName::Rz => "calibration.rz"@,
        AxisName::Slider => "calibration.slider"@,
    }
}

fn calibration_section_str(axis: AxisName) -> (s: &'static str)
    ensures
        s@ == calibration_section(axis),
{
    match axis {
        AxisName::X => "calibration.x",
        AxisName::Y => "calibration.y",
        AxisName::Rz => "calibration.rz",
        AxisName::Slider => "calibration.slider",
    }
}

/// The config-file key of a hat direction.
pub open spec fn hat_key(direction: PovDirection) -> Seq<char> {
    match direction {
        PovDirection::North => "north"@,
        PovDirection::NorthEast => "north_east"@,
        PovDirection::East => "east"@,
        PovDirection::SouthEast => "south_east"@,
        PovDirection::South => "south"@,
        PovDirection::SouthWest => "south_west"@,
        PovDirection::West => "west"@,
        PovDirection::NorthWest => "north_west"@,
        PovDirection::Center => "center"@,
    }
}

fn hat_key_str(direction: PovDirection) -> (s: &'static str)
    ensures
        s@ == hat_key(direction),
{
    match direction {
        PovDirection::North => "north",
        PovDirection::NorthEast => "north_east",
        PovDirection::East => "east",
        PovDirection::SouthEast => "south_east",
        PovDirection::South => "south",
        PovDirection::SouthWest => "south_west",
        PovDirection::West => "west",
        PovDirection::NorthWest => "north_west",
        PovDirection::Center => "center",
    }
}

/// The human-readable text of a warning, naming the config key and the
/// offending value.
pub open spec fn warning_text(w: ConfigWarning) -> Seq<char> {
    match w {
        ConfigWarning::SmoothingOutOfRange { axis, value } =>
            "["@ + axis_section(axis) + "] smoothing must be between 1 and 30 (you set "@ + dec(value as nat) + ")"@,
        ConfigWarning::ButtonOutOfRange { physical, virtual_button } =>
            "[buttons] physical button "@ + dec(physical as nat) + " maps to virtual button "@
                + dec(virtual_button as nat)
                + " which is out of range (max is 31) \u{2014} this mapping has no effect"@,
        ConfigWarning::ButtonShadowed { first, second, virtual_button } =>
            "[buttons] physical buttons "@ + dec(first as nat) + " and "@ + dec(second as nat)
                + " both map to virtual button "@ + dec(virtual_button as nat)
                + " \u{2014} one will shadow the other"@,
        ConfigWarning::ShiftButtonOutOfRange { shift_button } =>
            "[layer] shift_button "@ + dec(shift_button as nat)
                + " is out of range (max physical button is 9)"@,
        ConfigWarning::LayerButtonShadowed { first, second, virtual_button } =>
            "[layer.buttons] physical buttons "@ + dec(first as nat) + " and "@ + dec(second as nat)
                + " both map to virtual button "@ + dec(virtual_button as nat)
                + " \u{2014} one will shadow the other"@,
        ConfigWarning::HatButtonOutOfRange { direction, index } =>
            "[hat] "@ + hat_key(direction) + " = "@ + dec(index as nat)
                + " is out of range (max virtual button index is 31) \u{2014} this direction will not fire any button"@,
        ConfigWarning::CalibrationDegenerate { axis, min, max } =>
            "["@ + calibration_section(axis) + "] min ("@ + int_text(min as int)
                + ") must be less than max ("@ + int_text(max as int)
                + ") \u{2014} calibration range is degenerate; run sidewinder-diag calibrate"@,
    }
}

impl ConfigWarning {
    /// The human-readable text of this warning.
    pub fn message(&self) -> (s: String)
        ensures
            s@ == warning_text(*self),
    {
        let mut out = String::new();
        match *self {
            ConfigWarning::SmoothingOutOfRange { axis, value } => {
                out.append("[");
                out.append(axis_section_str(axis));
                out.append("] smoothing must be between 1 and 30 (you set ");
                push_decimal(&mut out, value as u64);
                out.append(")");
            },
            ConfigWarning::ButtonOutOfRange { physical, virtual_button } => {
                out.append("[buttons] physical button ");
                push_decimal(&mut out, physical as u64);
                out.append(" maps to virtual button ");
                push_decimal(&mut out, virtual_button as u64);
                out.append(" which is out of range (max is 31) \u{2014} this mapping has no effect");
            },
            ConfigWarning::ButtonShadowed { first, second, virtual_button } => {
                out.append("[buttons] physical buttons ");
                push_decimal(&mut out, first as u64);
                out.append(" and ");
                push_decimal(&mut out, second as u64);
                out.append(" both map to virtual button ");
                push_decimal(&mut out, virtual_button as u64);
                out.append(" \u{2014} one will shadow the other");
            },
            ConfigWarning::ShiftButtonOutOfRange { shift_button } => {
                out.append("[layer] shift_button ");
                push_decimal(&mut out, shift_button as u64);
                out.append(" is out of range (max physical button is 9)");
            },
            ConfigWarning::LayerButtonShadowed { first, second, virtual_button } => {
                out.append("[layer.buttons] physical buttons ");
                push_decimal(&mut out, first as u64);
                out.append(" and ");
                push_decimal(&mut out, second as u64);
                out.append(" both map to virtual button ");
                push_decimal(&mut out, virtual_button as u64);
                out.append(" \u{2014} one will shadow the other");
            },
            ConfigWarning::HatButtonOutOfRange { direction, index } => {
                out.append("[hat] ");
                out.append(hat_key_str(direction));
                out.append(" = ");
                push_decimal(&mut out, index as u64);
                out.append(" is out of range (max virtual button index is 31) \u{2014} this direction will not fire any button");
            },
            ConfigWarning::CalibrationDegenerate { axis, min, max } => {
                out.append("[");
                out.append(calibration_section_str(axis));
                out.append("] min (");
                push_int(&mut out, min as i64);
                out.append(") must be less than max (");
                push_int(&mut out, max as i64);
                out.append(") \u{2014} calibration range is degenerate; run sidewinder-diag calibrate");
            },
        }
        assert(out@ =~= warning_text(*self));
        out
    }
}

// ── Smoothing ─────────────────────────────────────────────────────────────────

/// Warn when a smoothing window is outside `1..=SMOOTHING_MAX`.
pub fn validate_smoothing(axis: AxisName, smoothing: u8) -> (w: Option<ConfigWarning>)
    ensures
        w == if smoothing == 0 || smoothing > SMOOTHING_MAX {
            Some(ConfigWarning::SmoothingOutOfRange { axis, value: smoothing })
        } else {
            None::<ConfigWarning>
        },
{
    if smoothing == 0 || smoothing > SMOOTHING_MAX {
        Some(ConfigWarning::SmoothingOutOfRange { axis, value: smoothing })
    } else {
        None
    }
}

// ── Buttons ───────────────────────────────────────────────────────────────────

/// The last explicitly remapped physical button below `k` whose target is `v`.
pub open spec fn last_explicit_to(m: ButtonMapConfig, k: int, v: u8) -> Option<u8>
    decreases k,
{
    if k <= 0 {
        None
    } else if m.explicit_target(k - 1) == Some(v) {
        Some((k - 1) as u8)
    } else {
        last_explicit_to(m, k - 1, v)
    }
}

/// The warnings for the explicit mappings of physical buttons below `k`.
///
/// For each explicitly remapped button, in order: an out-of-range warning
/// when its target is 32 or more, then a shadowing warning naming the
/// previous explicitly remapped button with the same target, if any.
pub open spec fn button_warnings(m: ButtonMapConfig, k: int) -> Seq<ConfigWarning>
    decreases k,
{
    if k <= 0 {
        Seq::empty()
    } else {
        let p = k - 1;
        let before = button_warnings(m, p);
        match m.explicit_target(p) {
            None => before,
            Some(v) => {
                let range = if v >= VIRTUAL_BUTTON_COUNT {
                    seq![ConfigWarning::ButtonOutOfRange { physical: p as u8, virtual_button: v }]
                } else {
                    Seq::empty()
                };
                let shadow = match last_explicit_to(m, p, v) {
                    Some(q) => seq![
                        ConfigWarning::ButtonShadowed { first: q, second: p as u8, virtual_button: v },
                    ],
                    None => Seq::empty(),
                };
                before + range + shadow
            },
        }
    }
}

/// A table of "last physical button seen" for every virtual index.
fn empty_seen() -> (seen: Vec<Option<u8>>)
    ensures
        seen@.len() == 256,
        forall|v: int| 0 <= v < 256 ==> #[trigger] seen@[v].is_none(),
{
    let mut seen: Vec<Option<u8>> = Vec::new();
    let mut i: usize = 0;
    while i < 256
        invariant
            i <= 256,
            seen@.len() == i,
            forall|v: int| 0 <= v < i ==> #[trigger] seen@[v].is_none(),
        decreases 256 - i,
    {
        seen.push(None);
        i = i + 1;
    }
    seen
}

/// Validate the layer-1 button map: explicit targets past the last virtual
/// button, and explicitly remapped buttons that shadow each other.
pub fn validate_buttons(m: &ButtonMapConfig) -> (w: Vec<ConfigWarning>)
    ensures
        w@ == button_warnings(*m, BUTTON_COUNT as int),
{
    let mut warnings: Vec<ConfigWarning> = Vec::new();
    let mut seen = empty_seen();
    let mut phys: u8 = 0;
    while phys < BUTTON_COUNT_U8
        invariant
            phys <= BUTTON_COUNT_U8,
            seen@.len() == 256,
            forall|v: int| 0 <= v < 256 ==> #[trigger] seen@[v] == last_explicit_to(*m, phys as int, v as u8),
            warnings@ == button_warnings(*m, phys as int),
        decreases BUTTON_COUNT_U8 - phys,
    {
        let virt = m.virtual_for(phys);
        let explicit = m.is_explicit(phys);
        if explicit {
            if virt >= VIRTUAL_BUTTON_COUNT {
                warnings.push(ConfigWarning::ButtonOutOfRange { physical: phys, virtual_button: virt });
            }
            match seen[virt as usize] {
                Some(prev) => {
                    warnings.push(
                        ConfigWarning::ButtonShadowed { first: prev, second: phys, virtual_button: virt },
                    );
                },
                None => {},
            }
            seen.set(virt as usize, Some(phys));
            proof {
                assert(warnings@ =~= button_warnings(*m, phys + 1));
            }
        }
        proof {
            assert forall|v: int| 0 <= v < 256 implies #[trigger] seen@[v] == last_explicit_to(
                *m,
                phys + 1,
                v as u8,
            ) by {
                assert(v as u8 as int == v);
            }
        }
        phys = phys + 1;
    }
    warnings
}

// ── Layer ─────────────────────────────────────────────────────────────────────

/// The shift button as a 0-based physical index, when it names a physical button.
pub open spec fn shift_physical(shift_button: u8) -> Option<u8> {
    if 1 <= shift_button <= BUTTON_COUNT_U8 {
        Some((shift_button - 1) as u8)
    } else {
        None
    }
}

/// The last physical button below `k`, other than `skip`, whose layer-2
/// target is `v`.
pub open spec fn last_mapped_to(m: ButtonMapConfig, k: int, v: u8, skip: Option<u8>) -> Option<u8>
    decreases k,
{
    if k <= 0 {
        None
    } else if Some((k - 1) as u8) != skip && m.target((k - 1) as u8) == v {
        Some((k - 1) as u8)
    } else {
        last_mapped_to(m, k - 1, v, skip)
    }
}

/// The shadowing warnings for layer-2 buttons below `k`, skipping the shift
/// button itself (it is consumed, never forwarded).
pub open spec fn layer_shadow_warnings(m: ButtonMapConfig, k: int, skip: Option<u8>) -> Seq<ConfigWarning>
    decreases k,
{
    if k <= 0 {
        Seq::empty()
    } else {
        let p = k - 1;
        let before = layer_shadow_warnings(m, p, skip);
        if Some(p as u8) == skip {
            before
        } else {
            let v = m.target(p as u8);
            match last_mapped_to(m, p, v, skip) {
                Some(q) => before.push(
                    ConfigWarning::LayerButtonShadowed { first: q, second: p as u8, virtual_button: v },
                ),
                None => before,
            }
        }
    }
}

/// The warnings for a layer configuration: nothing when layers are disabled
/// (shift button 0); otherwise an out-of-range warning for a shift button past
/// the physical buttons, then the shadowing warnings of the layer-2 map.
pub open spec fn layer_warnings(l: LayerConfig) -> Seq<ConfigWarning> {
    if l.shift_button == 0 {
        Seq::empty()
    } else {
        let range = if l.shift_button > BUTTON_COUNT_U8 {
            seq![ConfigWarning::ShiftButtonOutOfRange { shift_button: l.shift_button }]
        } else {
            Seq::empty()
        };
        range + layer_shadow_warnings(
            l.buttons,
            BUTTON_COUNT as int,
            shift_physical(l.shift_button),
        )
    }
}

/// Validate the layer-2 button map and shift button when layers are enabled.
pub fn validate_layer(l: &LayerConfig) -> (w: Vec<ConfigWarning>)
    ensures
        w@ == layer_warnings(*l),
{
    let mut warnings: Vec<ConfigWarning> = Vec::new();
    if l.shift_button == 0 {
        return warnings;
    }
    if l.shift_button > BUTTON_COUNT_U8 {
        warnings.push(ConfigWarning::ShiftButtonOutOfRange { shift_button: l.shift_button });
    }
    let ghost range = warnings@;
    let skip: Option<u8> = if 1 <= l.shift_button && l.shift_button <= BUTTON_COUNT_U8 {
        Some(l.shift_button - 1)
    } else {
        None
    };
    let mut seen = empty_seen();
    let mut phys: u8 = 0;
    while phys < BUTTON_COUNT_U8
        invariant
            phys <= BUTTON_COUNT_U8,
            skip == shift_physical(l.shift_button),
            seen@.len() == 256,
            forall|v: int|
                0 <= v < 256 ==> #[trigger] seen@[v] == last_mapped_to(
                    l.buttons,
                    phys as int,
                    v as u8,
                    skip,
                ),
            warnings@ == range + layer_shadow_warnings(l.buttons, phys as int, skip),
        decreases BUTTON_COUNT_U8 - phys,
    {
        let is_skipped = match skip {
            Some(s) => s == phys,
            None => false,
        };
        if !is_skipped {
            let virt = l.buttons.virtual_for(phys);
            match seen[virt as usize] {
                Some(prev) => {
                    warnings.push(
                        ConfigWarning::LayerButtonShadowed {
                            first: prev,
                            second: phys,
                            virtual_button: virt,
                        },
                    );
                },
                None => {},
            }
            seen.set(virt as usize, Some(phys));
        }
        proof {
            assert(warnings@ =~= range + layer_shadow_warnings(l.buttons, phys + 1, skip));
            assert forall|v: int| 0 <= v < 256 implies #[trigger] seen@[v] == last_mapped_to(
                l.buttons,
                phys + 1,
                v as u8,
                skip,
            ) by {
                assert(v as u8 as int == v);
            }
        }
        phys = phys + 1;
    }
    warnings
}

// ── Hat ───────────────────────────────────────────────────────────────────────

/// A one-element warning list when a hat button index is past the last
/// virtual button, else empty.
pub open spec fn hat_check(direction: PovDirection, index: u8) -> Seq<ConfigWarning> {
    if index >= VIRTUAL_BUTTON_COUNT {
        seq![ConfigWarning::HatButtonOutOfRange { direction, index }]
    } else {
        Seq::empty()
    }
}

/// The warnings for the hat: nothing in POV mode; otherwise one per
/// direction (North clockwise to North-West) whose button index is 32 or more.
pub open spec fn hat_warnings(h: HatConfig) -> Seq<ConfigWarning> {
    if !h.as_buttons {
        Seq::empty()
    } else {
        hat_check(PovDirection::North, h.north) + hat_check(PovDirection::NorthEast, h.north_east)
            + hat_check(PovDirection::East, h.east) + hat_check(
            PovDirection::SouthEast,
            h.south_east,
        ) + hat_check(PovDirection::South, h.south) + hat_check(
            PovDirection::SouthWest,
            h.south_west,
        ) + hat_check(PovDirection::West, h.west) + hat_check(
            PovDirection::NorthWest,
            h.north_west,
        )
    }
}

/// Append the warning for one hat direction, if its index is out of range.
fn push_hat_check(warnings: &mut Vec<ConfigWarning>, direction: PovDirection, index: u8)
    ensures
        final(warnings)@ == old(warnings)@ + hat_check(direction, index),
{
    if index >= VIRTUAL_BUTTON_COUNT {
        warnings.push(ConfigWarning::HatButtonOutOfRange { direction, index });
        proof {
            assert(final(warnings)@ =~= old(warnings)@ + hat_check(direction, index));
        }
    } else {
        proof {
            assert(final(warnings)@ =~= old(warnings)@ + hat_check(direction, index));
        }
    }
}

/// Validate hat button indices when hat-as-buttons mode is enabled.
pub fn validate_hat(h: &HatConfig) -> (w: Vec<ConfigWarning>)
    ensures
        w@ == hat_warnings(*h),
{
    let mut warnings: Vec<ConfigWarning> = Vec::new();
    if !h.as_buttons {
        return warnings;
    }
    push_hat_check(&mut warnings, PovDirection::North, h.north);
    push_hat_check(&mut warnings, PovDirection::NorthEast, h.north_east);
    push_hat_check(&mut warnings, PovDirection::East, h.east);
    push_hat_check(&mut warnings, PovDirection::SouthEast, h.south_east);
    push_hat_check(&mut warnings, PovDirection::South, h.south);
    push_hat_check(&mut warnings, PovDirection::SouthWest, h.south_west);
    push_hat_check(&mut warnings, PovDirection::West, h.west);
    push_hat_check(&mut warnings, PovDirection::NorthWest, h.north_west);
    proof {
        assert(warnings@ =~= hat_warnings(*h));
    }
    warnings
}

// ── Calibration ───────────────────────────────────────────────────────────────

/// A one-element warning list when a calibration range is degenerate, else empty.
pub open spec fn range_check(axis: AxisName, min: i16, max: i16) -> Seq<ConfigWarning> {
    if min >= max {
        seq![ConfigWarning::CalibrationDegenerate { axis, min, max }]
    } else {
        Seq::empty()
    }
}

/// The warnings for the calibration: one per axis (X, Y, Rz, Slider) whose
/// minimum is not below its maximum.
pub open spec fn calibration_warnings(c: CalibrationConfig) -> Seq<ConfigWarning> {
    range_check(AxisName::X, c.x_min, c.x_max) + range_check(AxisName::Y, c.y_min, c.y_max)
        + range_check(AxisName::Rz, c.rz_min, c.rz_max) + range_check(
        AxisName::Slider,
        c.slider_min,
        c.slider_max,
    )
}

/// Each axis is checked on its own: the calibration warnings hold a
/// degenerate-range warning for X, Y, Rz or Slider, carrying that axis's
/// minimum and maximum, exactly when that axis's minimum is not below its
/// maximum, and nothing else.
pub proof fn lemma_calibration_warnings_per_axis(c: CalibrationConfig)
    ensures
        calibration_warnings(c).contains(ConfigWarning::CalibrationDegenerate { axis: AxisName::X, min: c.x_min, max: c.x_max })
            <==> c.x_min >= c.x_max,
        calibration_warnings(c).contains(ConfigWarning::CalibrationDegenerate { axis: AxisName::Y, min: c.y_min, max: c.y_max })
            <==> c.y_min >= c.y_max,
        calibration_warnings(c).contains(ConfigWarning::CalibrationDegenerate { axis: AxisName::Rz, min: c.rz_min, max: c.rz_max })
            <==> c.rz_min >= c.rz_max,
        calibration_warnings(c).contains(
            ConfigWarning::CalibrationDegenerate { axis: AxisName::Slider, min: c.slider_min, max: c.slider_max },
        ) <==> c.slider_min >= c.slider_max,
        forall|i: int| 0 <= i < calibration_warnings(c).len() ==> match #[trigger] calibration_warnings(c)[i] {
            ConfigWarning::CalibrationDegenerate { axis, min, max } => min >= max && match axis {
                AxisName::X => min == c.x_min && max == c.x_max,
                AxisName::Y => min == c.y_min && max == c.y_max,
                AxisName::Rz => min == c.rz_min && max == c.rz_max,
                AxisName::Slider => min == c.slider_min && max == c.slider_max,
            },
            _ => false,
        },
        calibration_warnings(c).len() <= 4,
{
    let x = range_check(AxisName::X, c.x_min, c.x_max);
    let y = range_check(AxisName::Y, c.y_min, c.y_max);
    let z = range_check(AxisName::Rz, c.rz_min, c.rz_max);
    let s = range_check(AxisName::Slider, c.slider_min, c.slider_max);
    let w = calibration_warnings(c);
    assert(w == x + y + z + s);
    assert forall|i: int| 0 <= i < w.len() implies (w[i] == (if i < x.len() {
        x[i]
    } else if i < x.len() + y.len() {
        y[i - x.len()]
    } else if i < x.len() + y.len() + z.len() {
        z[i - x.len() - y.len()]
    } else {
        s[i - x.len() - y.len() - z.len()]
    })) by {}
    let wx = ConfigWarning::CalibrationDegenerate { axis: AxisName::X, min: c.x_min, max: c.x_max };
    let wy = ConfigWarning::CalibrationDegenerate { axis: AxisName::Y, min: c.y_min, max: c.y_max };
    let wz = ConfigWarning::CalibrationDegenerate { axis: AxisName::Rz, min: c.rz_min, max: c.rz_max };
    let ws = ConfigWarning::CalibrationDegenerate { axis: AxisName::Slider, min: c.slider_min, max: c.slider_max };
    if c.x_min >= c.x_max {
        assert(w[0] == wx);
    }
    if c.y_min >= c.y_max {
        assert(w[x.len() as int] == wy);
    }
    if c.rz_min >= c.rz_max {
        assert(w[(x.len() + y.len()) as int] == wz);
    }
    if c.slider_min >= c.slider_max {
        assert(w[(x.len() + y.len() + z.len()) as int] == ws);
    }
}

/// A warning is in a joined list exactly when it is in one of the parts.
proof fn lemma_join_contains(a: Seq<ConfigWarning>, b: Seq<ConfigWarning>)
    ensures
        forall|x: ConfigWarning| #[trigger] (a + b).contains(x) <==> a.contains(x) || b.contains(x),
{
    assert forall|x: ConfigWarning| #[trigger] (a + b).contains(x) <==> a.contains(x) || b.contains(x) by {
        if (a + b).contains(x) {
            let i = choose|i: int| 0 <= i < (a + b).len() && (a + b)[i] == x;
            if i >= a.len() {
                assert(b[i - a.len()] == x);
            }
        }
        if a.contains(x) {
            let i = choose|i: int| 0 <= i < a.len() && a[i] == x;
            assert((a + b)[i] == x);
        }
        if b.contains(x) {
            let i = choose|i: int| 0 <= i < b.len() && b[i] == x;
            assert((a + b)[a.len() + i] == x);
        }
    }
}

/// The hat index configured for a direction.
pub open spec fn hat_field(h: HatConfig, d: PovDirection) -> u8 {
    match d {
        PovDirection::North => h.north,
        PovDirection::NorthEast => h.north_east,
        PovDirection::East => h.east,
        PovDirection::SouthEast => h.south_east,
        PovDirection::South => h.south,
        PovDirection::SouthWest => h.south_west,
        PovDirection::West => h.west,
        PovDirection::NorthWest => h.north_west,
        PovDirection::Center => 0,
    }
}

/// Each hat direction is checked on its own: in hat-as-buttons mode the
/// warnings name a direction, with its configured index, exactly when that
/// index is past the last virtual button (31); outside that mode there are
/// none.
pub proof fn lemma_hat_warnings_per_direction(h: HatConfig)
    ensures
        hat_warnings(h).contains(ConfigWarning::HatButtonOutOfRange { direction: PovDirection::North, index: h.north })
            <==> h.as_buttons && h.north >= 32,
        hat_warnings(h).contains(ConfigWarning::HatButtonOutOfRange { direction: PovDirection::NorthEast, index: h.north_east })
            <==> h.as_buttons && h.north_east >= 32,
        hat_warnings(h).contains(ConfigWarning::HatButtonOutOfRange { direction: PovDirection::East, index: h.east })
            <==> h.as_buttons && h.east >= 32,
        hat_warnings(h).contains(ConfigWarning::HatButtonOutOfRange { direction: PovDirection::SouthEast, index: h.south_east })
            <==> h.as_buttons && h.south_east >= 32,
        hat_warnings(h).contains(ConfigWarning::HatButtonOutOfRange { direction: PovDirection::South, index: h.south })
            <==> h.as_buttons && h.south >= 32,
        hat_warnings(h).contains(ConfigWarning::HatButtonOutOfRange { direction: PovDirection::SouthWest, index: h.south_west })
            <==> h.as_buttons && h.south_west >= 32,
        hat_warnings(h).contains(ConfigWarning::HatButtonOutOfRange { direction: PovDirection::West, index: h.west })
            <==> h.as_buttons && h.west >= 32,
        hat_warnings(h).contains(ConfigWarning::HatButtonOutOfRange { direction: PovDirection::NorthWest, index: h.north_west })
            <==> h.as_buttons && h.north_west >= 32,
        forall|w: ConfigWarning| #[trigger] hat_warnings(h).contains(w) ==> (h.as_buttons && match w {
            ConfigWarning::HatButtonOutOfRange { direction, index } => index >= 32 && index == hat_field(h, direction)
                && direction != PovDirection::Center,
            _ => false,
        }),
{
    if h.as_buttons {
        let c0 = hat_check(PovDirection::North, h.north);
        let c1 = hat_check(PovDirection::NorthEast, h.north_east);
        let c2 = hat_check(PovDirection::East, h.east);
        let c3 = hat_check(PovDirection::SouthEast, h.south_east);
        let c4 = hat_check(PovDirection::South, h.south);
        let c5 = hat_check(PovDirection::SouthWest, h.south_west);
        let c6 = hat_check(PovDirection::West, h.west);
        let c7 = hat_check(PovDirection::NorthWest, h.north_west);
        lemma_join_contains(c0, c1);
        lemma_join_contains(c0 + c1, c2);
        lemma_join_contains(c0 + c1 + c2, c3);
        lemma_join_contains(c0 + c1 + c2 + c3, c4);
        lemma_join_contains(c0 + c1 + c2 + c3 + c4, c5);
        lemma_join_contains(c0 + c1 + c2 + c3 + c4 + c5, c6);
        lemma_join_contains(c0 + c1 + c2 + c3 + c4 + c5 + c6, c7);
        assert(hat_warnings(h) == c0 + c1 + c2 + c3 + c4 + c5 + c6 + c7);
        assert forall|w: ConfigWarning| #[trigger] hat_warnings(h).contains(w) implies (h.as_buttons && match w {
            ConfigWarning::HatButtonOutOfRange { direction, index } => index >= 32 && index == hat_field(h, direction)
                && direction != PovDirection::Center,
            _ => false,
        }) by {
            if c0.contains(w) { assert(c0[0] == w); }
            if c1.contains(w) { assert(c1[0] == w); }
            if c2.contains(w) { assert(c2[0] == w); }
            if c3.contains(w) { assert(c3[0] == w); }
            if c4.contains(w) { assert(c4[0] == w); }
            if c5.contains(w) { assert(c5[0] == w); }
            if c6.contains(w) { assert(c6[0] == w); }
            if c7.contains(w) { assert(c7[0] == w); }
        }
        if h.north >= 32 { assert(c0[0] == ConfigWarning::HatButtonOutOfRange { direction: PovDirection::North, index: h.north }); }
        if h.north_east >= 32 { assert(c1[0] == ConfigWarning::HatButtonOutOfRange { direction: PovDirection::NorthEast, index: h.north_east }); }
        if h.east >= 32 { assert(c2[0] == ConfigWarning::HatButtonOutOfRange { direction: PovDirection::East, index: h.east }); }
        if h.south_east >= 32 { assert(c3[0] == ConfigWarning::HatButtonOutOfRange { direction: PovDirection::SouthEast, index: h.south_east }); }
        if h.south >= 32 { assert(c4[0] == ConfigWarning::HatButtonOutOfRange { direction: PovDirection::South, index: h.south }); }
        if h.south_west >= 32 { assert(c5[0] == ConfigWarning::HatButtonOutOfRange { direction: PovDirection::SouthWest, index: h.south_west }); }
        if h.west >= 32 { assert(c6[0] == ConfigWarning::HatButtonOutOfRange { direction: PovDirection::West, index: h.west }); }
        if h.north_west >= 32 { assert(c7[0] == ConfigWarning::HatButtonOutOfRange { direction: PovDirection::NorthWest, index: h.north_west }); }
    }
}

/// Append the warning for one calibration range, if it is degenerate.
fn push_range_check(warnings: &mut Vec<ConfigWarning>, axis: AxisName, min: i16, max: i16)
    ensures
        final(warnings)@ == old(warnings)@ + range_check(axis, min, max),
{
    if min >= max {
        warnings.push(ConfigWarning::CalibrationDegenerate { axis, min, max });
        proof {
            assert(final(warnings)@ =~= old(warnings)@ + range_check(axis, min, max));
        }
    } else {
        proof {
            assert(final(warnings)@ =~= old(warnings)@ + range_check(axis, min, max));
        }
    }
}

/// Validate calibration ranges (min must be less than max on each axis).
pub fn validate_calibration(c: &CalibrationConfig) -> (w: Vec<ConfigWarning>)
    ensures
        w@ == calibration_warnings(*c),
{
    let mut warnings: Vec<ConfigWarning> = Vec::new();
    push_range_check(&mut warnings, AxisName::X, c.x_min, c.x_max);
    push_range_check(&mut warnings, AxisName::Y, c.y_min, c.y_max);
    push_range_check(&mut warnings, AxisName::Rz, c.rz_min, c.rz_max);
    push_range_check(&mut warnings, AxisName::Slider, c.slider_min, c.slider_max);
    proof {
        assert(warnings@ =~= calibration_warnings(*c));
    }
    warnings
}

// ── Validation report ─────────────────────────────────────────────────────────

/// Number of sections of the validation report.
pub const REPORT_SECTIONS: usize = 8;

/// The sections of the validation report, in report order.
pub open spec fn report_section(k: int) -> Seq<char> {
    if k == 0 {
        "axis_x"@
    } else if k == 1 {
        "axis_y"@
    } else if k == 2 {
        "axis_rz"@
    } else if k == 3 {
        "axis_slider"@
    } else if k == 4 {
        "calibration"@
    } else if k == 5 {
        "buttons"@
    } else if k == 6 {
        "layer"@
    } else {
        "hat"@
    }
}

fn report_section_str(k: usize) -> (s: &'static str)
    requires
        k < REPORT_SECTIONS,
    ensures
        s@ == report_section(k as int),
{
    if k == 0 {
        "axis_x"
    } else if k == 1 {
        "axis_y"
    } else if k == 2 {
        "axis_rz"
    } else if k == 3 {
        "axis_slider"
    } else if k == 4 {
        "calibration"
    } else if k == 5 {
        "buttons"
    } else if k == 6 {
        "layer"
    } else {
        "hat"
    }
}

/// Whether the text `s` begins with `p`.
pub open spec fn has_prefix(s: Seq<char>, p: Seq<char>) -> bool {
    p.len() <= s.len() && s.take(p.len() as int) == p
}

/// The texts of a list of strings.
pub open spec fn texts(v: Seq<String>) -> Seq<Seq<char>> {
    v.map_values(|s: String| s@)
}

/// The first `n` warnings that begin with `tag`, in order.
pub open spec fn tagged(ws: Seq<Seq<char>>, tag: Seq<char>, n: int) -> Seq<Seq<char>>
    decreases n,
{
    if n <= 0 {
        Seq::empty()
    } else if has_prefix(ws[n - 1], tag) {
        tagged(ws, tag, n - 1).push(ws[n - 1])
    } else {
        tagged(ws, tag, n - 1)
    }
}

/// The line of a section without warnings.
pub open spec fn ok_line(section: Seq<char>) -> Seq<char> {
    "  \u{2713} ["@ + section + "] \u{2014} OK"@
}

/// The line of one warning.
pub open spec fn warning_line(w: Seq<char>) -> Seq<char> {
    "  ! "@ + w
}

/// The lines of one section: each of its warnings (those that begin with
/// `[` and the section's name), or the section's OK line when it has none.
pub open spec fn section_lines(section: Seq<char>, ws: Seq<Seq<char>>) -> Seq<Seq<char>> {
    let mine = tagged(ws, seq!['['] + section, ws.len() as int);
    if mine.len() == 0 {
        seq![ok_line(section)]
    } else {
        mine.map_values(|w: Seq<char>| warning_line(w))
    }
}

/// The lines of the first `k` sections of the report.
pub open spec fn report_lines(ws: Seq<Seq<char>>, k: int) -> Seq<Seq<char>>
    decreases k,
{
    if k <= 0 {
        Seq::empty()
    } else {
        report_lines(ws, k - 1) + section_lines(report_section(k - 1), ws)
    }
}

/// The closing line of the report for `n` warnings in all.
pub open spec fn verdict_text(n: nat) -> Seq<char> {
    if n == 0 {
        "No warnings. Config is valid."@
    } else if n == 1 {
        "1 warning. The app will use defaults for flagged fields."@
    } else {
        dec(n) + " warnings. The app will use defaults for flagged fields."@
    }
}

/// Whether `s` begins with `p`.
fn starts_with(s: &str, p: &str) -> (b: bool)
    ensures
        b == has_prefix(s@, p@),
{
    let n = p.unicode_len();
    if n > s.unicode_len() {
        return false;
    }
    let mut i: usize = 0;
    while i < n
        invariant
            n == p@.len(),
            n <= s@.len(),
            i <= n,
            s@.take(i as int) == p@.take(i as int),
        decreases n - i,
    {
        if s.get_char(i) != p.get_char(i) {
            assert(s@.take(n as int)[i as int] != p@[i as int]);
            return false;
        }
        assert(s@.take(i + 1) =~= s@.take(i as int).push(s@[i as int]));
        assert(p@.take(i + 1) =~= p@.take(i as int).push(p@[i as int]));
        i = i + 1;
    }
    assert(p@.take(n as int) =~= p@);
    true
}

/// Append the lines of one section of the report.
fn push_section_lines(lines: &mut Vec<String>, section: &str, warnings: &Vec<String>)
    ensures
        texts(final(lines)@) == texts(old(lines)@) + section_lines(section@, texts(warnings@)),
{
    let ghost ws = texts(warnings@);
    let mut tag = String::new();
    proof {
        reveal_strlit("[");
    }
    tag.append("[");
    tag.append(section);
    assert(tag@ =~= seq!['['] + section@);
    let ghost start = texts(lines@);
    let mut found = false;
    let mut i: usize = 0;
    while i < warnings.len()
        invariant
            ws == texts(warnings@),
            tag@ == seq!['['] + section@,
            i <= warnings@.len(),
            found == (tagged(ws, tag@, i as int).len() > 0),
            texts(lines@) == start + tagged(ws, tag@, i as int).map_values(|w: Seq<char>| warning_line(w)),
        decreases warnings@.len() - i,
    {
        let w = &warnings[i];
        assert(ws[i as int] == w@);
        if starts_with(w.as_str(), tag.as_str()) {
            let mut line = String::new();
            proof {
                reveal_strlit("  ! ");
            }
            line.append("  ! ");
            line.append(w.as_str());
            proof {
                assert(line@ =~= warning_line(w@));
            }
            let ghost before = lines@;
            let ghost t = tagged(ws, tag@, i as int);
            lines.push(line);
            found = true;
            proof {
                assert(tagged(ws, tag@, i + 1) == t.push(ws[i as int]));
                assert(texts(lines@) =~= texts(before).push(warning_line(w@)));
                assert(t.push(ws[i as int]).map_values(|w: Seq<char>| warning_line(w)) =~= t.map_values(
                    |w: Seq<char>| warning_line(w),
                ).push(warning_line(w@)));
            }
        } else {
            assert(tagged(ws, tag@, i + 1) == tagged(ws, tag@, i as int));
        }
        i = i + 1;
    }
    if !found {
        let mut line = String::new();
        proof {
            reveal_strlit("  \u{2713} [");
            reveal_strlit("] \u{2014} OK");
        }
        line.append("  \u{2713} [");
        line.append(section);
        line.append("] \u{2014} OK");
        assert(line@ =~= ok_line(section@));
        let ghost before = lines@;
        lines.push(line);
        assert(texts(lines@) =~= texts(before).push(ok_line(section@)));
        assert(texts(lines@) =~= start + seq![ok_line(section@)]);
    } else {
        assert(texts(lines@) =~= texts(old(lines)@) + section_lines(section@, ws));
    }
}

/// The validation report of `config --validate` for the warnings found: the
/// lines of every section in report order, and the closing verdict.
pub fn validation_report(warnings: &Vec<String>) -> (r: (Vec<String>, String))
    ensures
        texts(r.0@) == report_lines(texts(warnings@), REPORT_SECTIONS as int),
        r.1@ == verdict_text(warnings@.len()),
{
    let ghost ws = texts(warnings@);
    let mut lines: Vec<String> = Vec::new();
    let mut k: usize = 0;
    while k < REPORT_SECTIONS
        invariant
            k <= REPORT_SECTIONS,
            ws == texts(warnings@),
            texts(lines@) == report_lines(ws, k as int),
        decreases REPORT_SECTIONS - k,
    {
        push_section_lines(&mut lines, report_section_str(k), warnings);
        k = k + 1;
    }
    let n = warnings.len();
    let mut verdict = String::new();
    if n == 0 {
        proof {
            reveal_strlit("No warnings. Config is valid.");
        }
        verdict.append("No warnings. Config is valid.");
    } else if n == 1 {
        proof {
            reveal_strlit("1 warning. The app will use defaults for flagged fields.");
        }
        verdict.append("1 warning. The app will use defaults for flagged fields.");
    } else {
        proof {
            reveal_strlit(" warnings. The app will use defaults for flagged fields.");
        }
        push_decimal(&mut verdict, n as u64);
        verdict.append(" warnings. The app will use defaults for flagged fields.");
    }
    assert(verdict@ =~= verdict_text(n as nat));
    (lines, verdict)
}

} // verus!
