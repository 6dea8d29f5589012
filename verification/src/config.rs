//! Mapping configuration: button remapping, the hat switch, the shift layer,
//! calibration ranges, and the validation rules for all of them.
//!
//! The floating-point axis settings (dead zone, scale, response curve
//! shaping) are applied by the service around this module.

use vstd::prelude::*;
use vstd::string::StringExecFns;

use crate::input::PovDirection;

verus! {

// ── Constants ─────────────────────────────────────────────────────────────────

/// Maximum allowed value for an axis smoothing window.
pub const SMOOTHING_MAX: u8 = 30;

/// The maximum number of physical buttons the Sidewinder FF2 can report.
pub const BUTTON_COUNT: usize = 9;

/// [`BUTTON_COUNT`] as `u8`.
pub const BUTTON_COUNT_U8: u8 = 9;

/// Number of virtual buttons the virtual device reports (indices 0–31).
pub const VIRTUAL_BUTTON_COUNT: u8 = 32;

// ── Response curve ────────────────────────────────────────────────────────────

/// Response curve applied to a normalised axis value.
///
/// All curves operate on a normalised input in `[-1.0, 1.0]`, are
/// sign-preserving, and map `0 → 0` and `1 → 1`.
#[derive(Debug, Clone, Copy, PartialEq, Eq, Structural)]
pub enum ResponseCurve {
    /// 1:1 passthrough — output equals input exactly.
    Linear,
    /// x² — gentle near centre, more aggressive at extremes.
    Quadratic,
    /// x³ — strong centre deadening, very aggressive at extremes.
    Cubic,
    /// Smoothstep 3x² − 2x³ — soft near centre AND soft near extremes.
    SCurve,
}

impl Default for ResponseCurve {
    fn default() -> (c: Self)
        ensures
            c == ResponseCurve::Linear,
    {
        ResponseCurve::Linear
    }
}

// ── Calibration ───────────────────────────────────────────────────────────────

/// Hardware calibration data for all four axes.
///
/// The default covers the full i16 range, which is equivalent to
/// uncalibrated operation.
#[derive(Debug, Clone, Copy, PartialEq, Eq, Structural)]
pub struct CalibrationConfig {
    /// Observed minimum raw value for the X axis.
    pub x_min: i16,
    /// Observed maximum raw value for the X axis.
    pub x_max: i16,
    /// Observed minimum raw value for the Y axis.
    pub y_min: i16,
    /// Observed maximum raw value for the Y axis.
    pub y_max: i16,
    /// Observed minimum raw value for the Rz / twist axis.
    pub rz_min: i16,
    /// Observed maximum raw value for the Rz / twist axis.
    pub rz_max: i16,
    /// Observed minimum raw value for the Slider / throttle axis.
    pub slider_min: i16,
    /// Observed maximum raw value for the Slider / throttle axis.
    pub slider_max: i16,
}

/// The uncalibrated ranges: the full i16 range on every axis.
pub open spec fn full_range_calibration() -> CalibrationConfig {
    CalibrationConfig {
        x_min: i16::MIN,
        x_max: i16::MAX,
        y_min: i16::MIN,
        y_max: i16::MAX,
        rz_min: i16::MIN,
        rz_max: i16::MAX,
        slider_min: i16::MIN,
        slider_max: i16::MAX,
    }
}

impl Default for CalibrationConfig {
    fn default() -> (c: Self)
        ensures
            c == full_range_calibration(),
    {
        Self {
            x_min: i16::MIN,
            x_max: i16::MAX,
            y_min: i16::MIN,
            y_max: i16::MAX,
            rz_min: i16::MIN,
            rz_max: i16::MAX,
            slider_min: i16::MIN,
            slider_max: i16::MAX,
        }
    }
}

impl CalibrationConfig {
    /// Whether calibration data has been recorded, i.e. the ranges differ
    /// from the uncalibrated defaults.
    pub fn is_set(&self) -> (b: bool)
        ensures
            b == (*self != full_range_calibration()),
    {
        *self != Self::default()
    }
}

// ── Button map ────────────────────────────────────────────────────────────────

/// The physical→virtual pairs given explicitly for physical button `p`: the
/// last pair of `pairs` whose physical index is `p`.
pub open spec fn last_pair_for(pairs: Seq<(u8, u8)>, p: u8) -> Option<u8>
    decreases pairs.len(),
{
    if pairs.len() == 0 {
        None
    } else if pairs.last().0 == p {
        Some(pairs.last().1)
    } else {
        last_pair_for(pairs.drop_last(), p)
    }
}

/// The entries of a list of keyed pairs as plain values.
pub open spec fn keyed_view(pairs: Seq<(String, u8)>) -> Seq<(Seq<char>, u8)> {
    pairs.map_values(|p: (String, u8)| (p.0@, p.1))
}

/// The physical button a config-file key names: the decimal text of 0–8,
/// exactly (no sign, no leading zero, no spaces).
pub open spec fn key_index(k: Seq<char>) -> Option<u8> {
    if k.len() == 1 && '0' <= k[0] <= '8' {
        Some((k[0] as u32 - 48) as u8)
    } else {
        None
    }
}

/// The (physical, virtual) pairs of the keyed entries whose key names a
/// physical button, in order.
pub open spec fn index_pairs(pairs: Seq<(Seq<char>, u8)>) -> Seq<(u8, u8)>
    decreases pairs.len(),
{
    if pairs.len() == 0 {
        Seq::empty()
    } else {
        let rest = index_pairs(pairs.drop_last());
        match key_index(pairs.last().0) {
            Some(p) => rest.push((p, pairs.last().1)),
            None => rest,
        }
    }
}

/// Maps physical button numbers to virtual button numbers.
///
/// Physical and virtual button indices are **0-based**.  Physical buttons
/// without an explicit entry map to themselves.
#[derive(Debug, PartialEq, Eq)]
pub struct ButtonMapConfig {
    /// Explicit target of each physical button 0–8, if one is configured.
    explicit: Vec<Option<u8>>,
    /// Precomputed lookup table: `table[phys]` = virtual button index for
    /// physical button `phys`.
    table: Vec<u8>,
}

impl ButtonMapConfig {
    /// The table always agrees with the explicit entries.
    #[verifier::type_invariant]
    closed spec fn consistent(self) -> bool {
        &&& self.explicit@.len() == BUTTON_COUNT
        &&& self.table@.len() == BUTTON_COUNT
        &&& forall|p: int|
            0 <= p < BUTTON_COUNT ==> #[trigger] self.table@[p] == match self.explicit@[p] {
                Some(v) => v,
                None => p as u8,
            }
    }

    /// The explicit target configured for physical button `p` (0–8), if any.
    pub closed spec fn explicit_target(&self, p: int) -> Option<u8> {
        self.explicit@[p]
    }

    /// The virtual button that physical button `p` maps to: its explicit
    /// target, else itself.  Indices past the physical buttons map to themselves.
    pub open spec fn target(&self, p: u8) -> u8 {
        if p < BUTTON_COUNT {
            match self.explicit_target(p as int) {
                Some(v) => v,
                None => p,
            }
        } else {
            p
        }
    }

    /// The identity map (no explicit entries).
    pub fn identity() -> (m: Self)
        ensures
            forall|p: int| 0 <= p < BUTTON_COUNT ==> #[trigger] m.explicit_target(p).is_none(),
    {
        let mut explicit: Vec<Option<u8>> = Vec::new();
        let mut i: usize = 0;
        while i < BUTTON_COUNT
            invariant
                i <= BUTTON_COUNT,
                explicit@.len() == i,
                forall|p: int| 0 <= p < i ==> #[trigger] explicit@[p].is_none(),
            decreases BUTTON_COUNT - i,
        {
            explicit.push(None);
            i = i + 1;
        }
        let table = Self::rebuild_table(&explicit);
        Self { explicit, table }
    }

    /// Construct from an explicit physical→virtual map (keys are 0-based
    /// physical button indices; values are 0-based virtual button indices).
    /// When a physical index appears more than once, the last pair wins;
    /// pairs for indices past the physical buttons have no effect.
    pub fn from_pairs(pairs: &[(u8, u8)]) -> (m: Self)
        ensures
            forall|p: int|
                0 <= p < BUTTON_COUNT ==> #[trigger] m.explicit_target(p) == last_pair_for(
                    pairs@,
                    p as u8,
                ),
    {
        let mut explicit: Vec<Option<u8>> = Vec::new();
        let mut p: usize = 0;
        while p < BUTTON_COUNT
            invariant
                p <= BUTTON_COUNT,
                explicit@.len() == p,
                forall|q: int|
                    0 <= q < p ==> #[trigger] explicit@[q] == last_pair_for(pairs@, q as u8),
            decreases BUTTON_COUNT - p,
        {
            let mut found: Option<u8> = None;
            let mut k: usize = 0;
            while k < pairs.len()
                invariant
                    k <= pairs@.len(),
                    p < BUTTON_COUNT,
                    found == last_pair_for(pairs@.take(k as int), p as u8),
                decreases pairs@.len() - k,
            {
                proof {
                    assert(pairs@.take(k + 1).drop_last() =~= pairs@.take(k as int));
                }
                if pairs[k].0 == p as u8 {
                    found = Some(pairs[k].1);
                }
                k = k + 1;
            }
            proof {
                assert(pairs@.take(pairs@.len() as int) =~= pairs@);
            }
            explicit.push(found);
            p = p + 1;
        }
        let table = Self::rebuild_table(&explicit);
        Self { explicit, table }
    }

    /// Construct from the `[buttons]` entries of the config file: a key names
    /// physical button `p` exactly when it is the decimal text of `p`
    /// (`"0"` to `"8"`); other keys have no effect.  When a button is named
    /// more than once, the last entry wins.
    pub fn from_keyed_pairs(pairs: &[(String, u8)]) -> (m: Self)
        ensures
            forall|p: int|
                0 <= p < BUTTON_COUNT ==> #[trigger] m.explicit_target(p) == last_pair_for(
                    index_pairs(keyed_view(pairs@)),
                    p as u8,
                ),
    {
        let mut indexed: Vec<(u8, u8)> = Vec::new();
        let mut i: usize = 0;
        while i < pairs.len()
            invariant
                i <= pairs@.len(),
                indexed@ == index_pairs(keyed_view(pairs@.take(i as int))),
            decreases pairs@.len() - i,
        {
            proof {
                assert(keyed_view(pairs@.take(i + 1)).drop_last() =~= keyed_view(pairs@.take(i as int)));
            }
            let key = pairs[i].0.as_str();
            if key.unicode_len() == 1 {
                let c = key.get_char(0);
                if '0' <= c && c <= '8' {
                    indexed.push(((c as u32 - 48) as u8, pairs[i].1));
                }
            }
            i = i + 1;
        }
        proof {
            assert(pairs@.take(pairs@.len() as int) =~= pairs@);
        }
        Self::from_pairs(indexed.as_slice())
    }

    /// Build the lookup table from the explicit entries: each physical button
    /// maps to its explicit target, else to itself.
    fn rebuild_table(explicit: &Vec<Option<u8>>) -> (table: Vec<u8>)
        requires
            explicit@.len() == BUTTON_COUNT,
        ensures
            table@.len() == BUTTON_COUNT,
            forall|p: int|
                0 <= p < BUTTON_COUNT ==> #[trigger] table@[p] == match explicit@[p] {
                    Some(v) => v,
                    None => p as u8,
                },
    {
        let mut table: Vec<u8> = Vec::new();
        let mut phys: usize = 0;
        while phys < BUTTON_COUNT
            invariant
                phys <= BUTTON_COUNT,
                explicit@.len() == BUTTON_COUNT,
                table@.len() == phys,
                forall|p: int|
                    0 <= p < phys ==> #[trigger] table@[p] == match explicit@[p] {
                        Some(v) => v,
                        None => p as u8,
                    },
            decreases BUTTON_COUNT - phys,
        {
            let v = match explicit[phys] {
                Some(v) => v,
                None => phys as u8,
            };
            table.push(v);
            phys = phys + 1;
        }
        table
    }

    /// Whether physical button `physical` has an explicit entry.
    pub fn is_explicit(&self, physical: u8) -> (b: bool)
        ensures
            b == (physical < BUTTON_COUNT && self.explicit_target(physical as int).is_some()),
    {
        proof {
            use_type_invariant(self);
        }
        if (physical as usize) < BUTTON_COUNT {
            self.explicit[physical as usize].is_some()
        } else {
            false
        }
    }

    /// Return the virtual button index (0-based) for a given physical button
    /// index (0-based).  Missing entries default to identity.
    ///
    /// Indices at or beyond [`BUTTON_COUNT`] are returned as-is (identity).
    pub fn virtual_for(&self, physical: u8) -> (v: u8)
        ensures
            v == self.target(physical),
    {
        proof {
            use_type_invariant(self);
        }
        let idx = physical as usize;
        if idx < BUTTON_COUNT {
            self.table[idx]
        } else {
            physical
        }
    }
}

/// The physical buttons below `k` that map to virtual button `virt`, lowest first.
pub open spec fn sources_below(m: ButtonMapConfig, virt: u8, k: int) -> Seq<u8>
    decreases k,
{
    if k <= 0 {
        Seq::empty()
    } else if m.target((k - 1) as u8) == virt {
        sources_below(m, virt, k - 1).push((k - 1) as u8)
    } else {
        sources_below(m, virt, k - 1)
    }
}

impl ButtonMapConfig {
    /// The physical buttons (0-based, lowest first) that map to virtual
    /// button `virt`; empty when the slot is free.
    pub fn mapped_sources(&self, virt: u8) -> (r: Vec<u8>)
        ensures
            r@ == sources_below(*self, virt, BUTTON_COUNT as int),
    {
        let mut r: Vec<u8> = Vec::new();
        let mut p: u8 = 0;
        while p < BUTTON_COUNT_U8
            invariant
                p <= BUTTON_COUNT_U8,
                r@ == sources_below(*self, virt, p as int),
            decreases BUTTON_COUNT_U8 - p,
        {
            if self.virtual_for(p) == virt {
                r.push(p);
            }
            p = p + 1;
        }
        r
    }
}

impl Default for ButtonMapConfig {
    fn default() -> (m: Self)
        ensures
            forall|p: int| 0 <= p < BUTTON_COUNT ==> #[trigger] m.explicit_target(p).is_none(),
    {
        Self::identity()
    }
}

// ── Hat config ────────────────────────────────────────────────────────────────

/// Configuration for the 8-way POV hat switch.
///
/// When `as_buttons` is `true`, the hat directions are mapped to discrete
/// virtual buttons instead of being reported as a POV value.
#[derive(Debug, Clone, Copy, PartialEq, Eq, Structural)]
pub struct HatConfig {
    /// When `true`, the hat fires virtual buttons instead of reporting a POV.
    pub as_buttons: bool,
    /// Virtual button index (0-based) for North. Default: 9.
    pub north: u8,
    /// Virtual button index (0-based) for North-East. Default: 10.
    pub north_east: u8,
    /// Virtual button index (0-based) for East. Default: 11.
    pub east: u8,
    /// Virtual button index (0-based) for South-East. Default: 12.
    pub south_east: u8,
    /// Virtual button index (0-based) for South. Default: 13.
    pub south: u8,
    /// Virtual button index (0-based) for South-West. Default: 14.
    pub south_west: u8,
    /// Virtual button index (0-based) for West. Default: 15.
    pub west: u8,
    /// Virtual button index (0-based) for North-West. Default: 16.
    pub north_west: u8,
}

impl Default for HatConfig {
    fn default() -> (h: Self)
        ensures
            h == (HatConfig {
                as_buttons: false,
                north: 9,
                north_east: 10,
                east: 11,
                south_east: 12,
                south: 13,
                south_west: 14,
                west: 15,
                north_west: 16,
            }),
    {
        Self {
            as_buttons: false,
            north: 9,
            north_east: 10,
            east: 11,
            south_east: 12,
            south: 13,
            south_west: 14,
            west: 15,
            north_west: 16,
        }
    }
}

/// The virtual button a hat direction fires, or `None` for the centre.
pub open spec fn hat_button(h: HatConfig, pov: PovDirection) -> Option<u8> {
    match pov {
        PovDirection::North => Some(h.north),
        PovDirection::NorthEast => Some(h.north_east),
        PovDirection::East => Some(h.east),
        PovDirection::SouthEast => Some(h.south_east),
        PovDirection::South => Some(h.south),
        PovDirection::SouthWest => Some(h.south_west),
        PovDirection::West => Some(h.west),
        PovDirection::NorthWest => Some(h.north_west),
        PovDirection::Center => None,
    }
}

impl HatConfig {
    /// Return the virtual button index for a given [`PovDirection`], or `None`
    /// if the direction is `Center`.
    pub fn button_for(&self, pov: PovDirection) -> (b: Option<u8>)
        ensures
            b == hat_button(*self, pov),
    {
        match pov {
            PovDirection::North => Some(self.north),
            PovDirection::NorthEast => Some(self.north_east),
            PovDirection::East => Some(self.east),
            PovDirection::SouthEast => Some(self.south_east),
            PovDirection::South => Some(self.south),
            PovDirection::SouthWest => Some(self.south_west),
            PovDirection::West => Some(self.west),
            PovDirection::NorthWest => Some(self.north_west),
            PovDirection::Center => None,
        }
    }
}

// ── Layer config ──────────────────────────────────────────────────────────────

/// Two-layer button system: hold a shift button to access a second set of
/// button mappings.
#[derive(Debug, PartialEq, Eq)]
pub struct LayerConfig {
    /// Physical button number (1-based) that acts as the shift key.
    ///
    /// Set to `0` to disable layers entirely.  When shift is held, the shift
    /// button itself is not forwarded to the virtual device.
    pub shift_button: u8,
    /// Layer-2 button mappings, used only while `shift_button` is held.
    pub buttons: ButtonMapConfig,
}

impl Default for LayerConfig {
    fn default() -> (l: Self)
        ensures
            l.shift_button == 0,
            forall|p: int|
                0 <= p < BUTTON_COUNT ==> #[trigger] l.buttons.explicit_target(p).is_none(),
    {
        LayerConfig { shift_button: 0, buttons: ButtonMapConfig::identity() }
    }
}

// ── Smoothing window ──────────────────────────────────────────────────────────

/// The rolling-average window used for a configured smoothing value: the
/// value clamped to `1..=SMOOTHING_MAX`.
pub open spec fn window_for(smoothing: u8) -> nat {
    if smoothing < 1 {
        1
    } else if smoothing > SMOOTHING_MAX {
        SMOOTHING_MAX as nat
    } else {
        smoothing as nat
    }
}

/// The rolling-average window for a configured smoothing value, clamped to
/// `1..=SMOOTHING_MAX` so out-of-range values never allocate oversized buffers.
pub fn smoothing_window(smoothing: u8) -> (w: usize)
    ensures
        w == window_for(smoothing),
{
    let s = if smoothing > SMOOTHING_MAX {
        SMOOTHING_MAX
    } else {
        smoothing
    };
    if s < 1 {
        1
    } else {
        s as usize
    }
}

// ── Default config text ───────────────────────────────────────────────────────

/// The fully documented default configuration file: every field present with
/// its default value, annotated with its purpose and valid range.
pub const DEFAULT_CONFIG_TOML: &'static str = r#"# Sidewinder Force Feedback 2 — configuration file
# Generated by `sidewinder-app config --generate`.
# Edit any value and save; the app hot-reloads changes automatically.

# ── Log level ───────────────────────────────────────────────────────────────────
# Controls how much detail is written to the log.
# Options: "error", "warn", "info", "debug", "trace"
# Default: "info"
log_level = "info"

# ── Force feedback ───────────────────────────────────────────────────────────────
# Global FFB gain applied to all effects (0 = no force, 255 = full force).
# Default: 255
ffb_gain = 255

# ── Calibration ──────────────────────────────────────────────────────────────────
# Physical axis ranges measured by `sidewinder-diag calibrate`.
# The app stretches these values to the full virtual range.
# Run `sidewinder-diag calibrate` to measure your hardware automatically.
[calibration]
x_min = -32768
x_max = 32767
y_min = -32768
y_max = 32767
rz_min = -32768
rz_max = 32767
slider_min = -32768
slider_max = 32767

# ── Axes ─────────────────────────────────────────────────────────────────────────
# Each axis has the same options:
#   invert    — flip the direction (true/false). Default: false.
#   dead_zone — fraction of range snapped to centre (0.0–0.5). Default: 0.0.
#   scale     — output multiplier (0.0–4.0). Default: 1.0.
#   curve     — response shape: "linear", "quadratic", "cubic", "s-curve".
#               Default: "linear".
#   smoothing — rolling-average window for jitter reduction (1–30).
#               1 = no smoothing. Default: 1.

[axis_x]
invert = false
dead_zone = 0.0
scale = 1.0
curve = "linear"
smoothing = 1

[axis_y]
invert = false
dead_zone = 0.0
scale = 1.0
curve = "linear"
smoothing = 1

[axis_rz]
invert = false
dead_zone = 0.0
scale = 1.0
curve = "linear"
smoothing = 1

[axis_slider]
invert = false
dead_zone = 0.0
scale = 1.0
curve = "linear"
smoothing = 1
"#;

/// Generate the fully documented TOML config text with the default values.
pub fn generate_toml() -> (s: String)
    ensures
        s@ == DEFAULT_CONFIG_TOML@,
{
    String::from_str(DEFAULT_CONFIG_TOML)
}

} // verus!
