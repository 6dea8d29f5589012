//! Measurement logic of the calibration wizard: the running min/max of an
//! axis and the gauge drawn while the user sweeps it.

use vstd::prelude::*;

use crate::input::InputState;

verus! {

// ── Measured result ───────────────────────────────────────────────────────────

/// Min/max measured for a single axis.
#[derive(Debug, Clone, Copy, PartialEq, Eq, Structural)]
pub struct AxisRange {
    pub min: i16,
    pub max: i16,
}

impl AxisRange {
    /// A range holding a single reading.
    pub fn new(initial: i16) -> (r: Self)
        ensures
            r.min == initial,
            r.max == initial,
    {
        AxisRange { min: initial, max: initial }
    }

    /// Widen the range to include `value`.
    pub fn update(&mut self, value: i16)
        ensures
            final(self).min == if value < old(self).min { value } else { old(self).min },
            final(self).max == if value > old(self).max { value } else { old(self).max },
            final(self).min <= value <= final(self).max,
    {
        if value < self.min {
            self.min = value;
        }
        if value > self.max {
            self.max = value;
        }
    }
}

// ── Input source ──────────────────────────────────────────────────────────────

/// Abstraction over real vs. simulated input, so the wizard can run without
/// hardware.
pub trait InputSource {
    /// Return the most recent axis values, blocking briefly if needed.
    fn poll(&self) -> InputState;
}

// ── Gauge ─────────────────────────────────────────────────────────────────────

/// Width of the wizard's gauge, in cells.
pub const BAR_WIDTH: usize = 40;

/// Position of a reading on a gauge of `width` cells: the reading shifted
/// into `0..=65535`, scaled onto `0..=width-1`, rounded down.
pub open spec fn bar_pos(value: i16, width: nat) -> int {
    ((value as int + 32768) * (width - 1)) / 65535
}

/// Map a raw i16 value to a `0..bar_width` position (left=0, right=bar_width-1).
pub fn value_to_bar(value: i16, bar_width: usize) -> (pos: usize)
    requires
        1 <= bar_width,
        65535 * (bar_width - 1) <= usize::MAX,
    ensures
        pos == bar_pos(value, bar_width as nat),
        pos < bar_width,
{
    let shifted: u32 = (value as i32 + 32768) as u32;
    let w1 = bar_width - 1;
    proof {
        assert(shifted as int * w1 as int <= 65535 * w1 as int) by (nonlinear_arith)
            requires
                shifted <= 65535,
        ;
        assert(shifted as int * w1 as int / 65535 <= w1) by (nonlinear_arith)
            requires
                shifted <= 65535,
        ;
    }
    let scaled = (shifted as usize * w1) / 65535;
    if scaled < w1 { scaled } else { w1 }
}

/// The gauge is monotone: a larger reading never sits further left.
pub proof fn lemma_bar_monotone(a: i16, b: i16, width: nat)
    requires
        a <= b,
        width >= 1,
    ensures
        bar_pos(a, width) <= bar_pos(b, width),
{
    let w1 = width - 1;
    assert((a as int + 32768) * w1 <= (b as int + 32768) * w1) by (nonlinear_arith)
        requires
            a <= b,
            w1 >= 0,
    ;
    vstd::arithmetic::div_mod::lemma_div_is_ordered((a as int + 32768) * w1, (b as int + 32768) * w1, 65535);
}

/// One gauge cell: the cursor, a cell inside the measured range, or blank.
pub open spec fn gauge_cell(i: int, cur: int, lo: int, hi: int) -> char {
    if i == cur {
        '\u{2588}'
    } else if lo <= i <= hi {
        '\u{2500}'
    } else {
        ' '
    }
}

/// The gauge cells for the current reading and the measured range.
pub fn gauge_cells(current: i16, range: AxisRange) -> (cells: Vec<char>)
    ensures
        cells@.len() == BAR_WIDTH,
        forall|i: int| 0 <= i < BAR_WIDTH ==> #[trigger] cells@[i] == gauge_cell(
            i,
            bar_pos(current, BAR_WIDTH as nat),
            bar_pos(range.min, BAR_WIDTH as nat),
            bar_pos(range.max, BAR_WIDTH as nat),
        ),
{
    let pos = value_to_bar(current, BAR_WIDTH);
    let min_pos = value_to_bar(range.min, BAR_WIDTH);
    let max_pos = value_to_bar(range.max, BAR_WIDTH);
    let mut cells: Vec<char> = Vec::new();
    let mut i: usize = 0;
    while i < BAR_WIDTH
        invariant
            i <= BAR_WIDTH,
            cells@.len() == i,
            forall|j: int| 0 <= j < i ==> #[trigger] cells@[j] == gauge_cell(j, pos as int, min_pos as int, max_pos as int),
        decreases BAR_WIDTH - i,
    {
        let c = if i == pos {
            '\u{2588}'
        } else if min_pos <= i && i <= max_pos {
            '\u{2500}'
        } else {
            ' '
        };
        cells.push(c);
        i = i + 1;
    }
    cells
}

// ── Wizard ────────────────────────────────────────────────────────────────────

/// Number of axes the wizard measures: X, Y, twist and throttle, in that order.
pub const WIZARD_AXES: usize = 4;

/// A key press, as far as the wizard tells keys apart.
#[derive(Debug, Clone, Copy, PartialEq, Eq, Structural)]
pub enum WizardKey {
    Enter,
    Esc,
    Char(char),
    /// Any other key; the wizard ignores it.
    Other,
}

/// Keys that begin the wizard or accept an axis measurement.
pub open spec fn is_accept(k: WizardKey) -> bool {
    k == WizardKey::Enter || k == WizardKey::Char(' ')
}

/// Keys that cancel the wizard before the summary.
pub open spec fn is_cancel(k: WizardKey) -> bool {
    k == WizardKey::Char('q') || k == WizardKey::Esc
}

/// Keys that answer "save" at the summary.
pub open spec fn is_yes(k: WizardKey) -> bool {
    k == WizardKey::Enter || k == WizardKey::Char('y') || k == WizardKey::Char('Y')
}

/// Keys that answer "don't save" at the summary.
pub open spec fn is_no(k: WizardKey) -> bool {
    k == WizardKey::Char('n') || k == WizardKey::Char('N') || k == WizardKey::Esc
}

/// Where the calibration wizard is.
#[derive(Debug, Clone, Copy, PartialEq, Eq, Structural)]
pub enum WizardStage {
    /// The welcome screen, waiting for the user to begin.
    Welcome,
    /// Measuring axis number `axis`, with the range seen so far.
    Measuring { axis: usize, range: AxisRange },
    /// The summary screen, asking whether to save.
    Summary,
    /// Finished: the user chose to save the measured ranges.
    Save,
    /// Finished: the user declined to save at the summary.
    Discard,
    /// Finished: the user cancelled before the summary.
    Cancel,
}

/// The calibration wizard: its stage and the ranges accepted so far.
#[derive(Debug, Clone, Copy)]
pub struct Wizard {
    pub stage: WizardStage,
    /// The accepted range of each axis; an axis not measured yet holds `0..=0`.
    pub ranges: [AxisRange; 4],
}

/// The wizard's stage after a key press, given the reading at that moment
/// (the first reading of the next axis when an axis is accepted).
pub open spec fn stage_after_key(stage: WizardStage, key: WizardKey, sample: InputState) -> WizardStage {
    match stage {
        WizardStage::Welcome => if is_accept(key) {
            WizardStage::Measuring { axis: 0, range: AxisRange { min: sample.axes[0], max: sample.axes[0] } }
        } else if is_cancel(key) {
            WizardStage::Cancel
        } else {
            stage
        },
        WizardStage::Measuring { axis, range } => if is_accept(key) {
            if axis + 1 < WIZARD_AXES {
                WizardStage::Measuring {
                    axis: (axis + 1) as usize,
                    range: AxisRange { min: sample.axes[axis + 1], max: sample.axes[axis + 1] },
                }
            } else {
                WizardStage::Summary
            }
        } else if is_cancel(key) {
            WizardStage::Cancel
        } else {
            stage
        },
        WizardStage::Summary => if is_yes(key) {
            WizardStage::Save
        } else if is_no(key) {
            WizardStage::Discard
        } else {
            stage
        },
        _ => stage,
    }
}

/// The accepted ranges after a key press: accepting an axis records its range.
pub open spec fn ranges_after_key(stage: WizardStage, ranges: Seq<AxisRange>, key: WizardKey) -> Seq<AxisRange> {
    match stage {
        WizardStage::Measuring { axis, range } => if is_accept(key) {
            ranges.update(axis as int, range)
        } else {
            ranges
        },
        _ => ranges,
    }
}

/// A finished wizard stays finished, and the wizard saves only from the
/// summary screen, which it reaches only by accepting the last axis.
pub proof fn lemma_wizard_endings(stage: WizardStage, key: WizardKey, sample: InputState)
    ensures
        (stage is Save || stage is Discard || stage is Cancel) ==> stage_after_key(stage, key, sample) == stage,
        stage_after_key(stage, key, sample) is Save ==> (stage is Summary || stage is Save),
        stage_after_key(stage, key, sample) is Summary ==> (stage is Summary || (stage is Measuring
            && stage->axis + 1 >= WIZARD_AXES)),
{
}

/// A range whose bounds are in order.
pub open spec fn range_ordered(r: AxisRange) -> bool {
    r.min <= r.max
}

impl Wizard {
    /// The wizard's own consistency: the axis being measured exists, and every
    /// range, accepted or in progress, is in order.
    pub open spec fn wf(&self) -> bool {
        &&& forall|i: int| 0 <= i < WIZARD_AXES ==> range_ordered(#[trigger] self.ranges@[i])
        &&& (self.stage matches WizardStage::Measuring { axis, range } ==> axis < WIZARD_AXES
            && range_ordered(range))
    }

    /// Whether the wizard has finished, one way or another.
    pub open spec fn done(&self) -> bool {
        self.stage is Save || self.stage is Discard || self.stage is Cancel
    }

    /// A wizard on its welcome screen, with nothing measured.
    pub fn new() -> (w: Self)
        ensures
            w.stage == WizardStage::Welcome,
            w.ranges@ == Seq::new(4, |i: int| AxisRange { min: 0, max: 0 }),
            w.wf(),
    {
        let w = Wizard { stage: WizardStage::Welcome, ranges: [AxisRange::new(0); 4] };
        assert(w.ranges@ =~= Seq::new(4, |i: int| AxisRange { min: 0, max: 0 }));
        w
    }

    /// Whether the wizard has finished.
    pub fn is_done(&self) -> (b: bool)
        ensures
            b == self.done(),
    {
        match self.stage {
            WizardStage::Save | WizardStage::Discard | WizardStage::Cancel => true,
            _ => false,
        }
    }

    /// Take one reading: while an axis is measured its range widens to
    /// include the reading of that axis; otherwise nothing changes.
    pub fn on_sample(&mut self, sample: &InputState)
        requires
            old(self).wf(),
        ensures
            final(self).wf(),
            final(self).ranges == old(self).ranges,
            match old(self).stage {
                WizardStage::Measuring { axis, range } => final(self).stage matches WizardStage::Measuring {
                    axis: a,
                    range: r,
                } && a == axis && r.min == (if sample.axes[axis as int] < range.min {
                    sample.axes[axis as int]
                } else {
                    range.min
                }) && r.max == (if sample.axes[axis as int] > range.max {
                    sample.axes[axis as int]
                } else {
                    range.max
                }),
                _ => final(self).stage == old(self).stage,
            },
    {
        match self.stage {
            WizardStage::Measuring { axis, range } => {
                let mut r = range;
                r.update(sample.axes[axis]);
                self.stage = WizardStage::Measuring { axis, range: r };
            },
            _ => {},
        }
    }

    /// React to a key press, `sample` being the reading at that moment.
    pub fn on_key(&mut self, key: WizardKey, sample: &InputState)
        requires
            old(self).wf(),
        ensures
            final(self).wf(),
            final(self).stage == stage_after_key(old(self).stage, key, *sample),
            final(self).ranges@ == ranges_after_key(old(self).stage, old(self).ranges@, key),
    {
        let accept = match key {
            WizardKey::Enter => true,
            WizardKey::Char(c) => c == ' ',
            _ => false,
        };
        let cancel = match key {
            WizardKey::Esc => true,
            WizardKey::Char(c) => c == 'q',
            _ => false,
        };
        match self.stage {
            WizardStage::Welcome => {
                if accept {
                    self.stage = WizardStage::Measuring { axis: 0, range: AxisRange::new(sample.axes[0]) };
                } else if cancel {
                    self.stage = WizardStage::Cancel;
                }
            },
            WizardStage::Measuring { axis, range } => {
                if accept {
                    self.ranges[axis] = range;
                    if axis + 1 < WIZARD_AXES {
                        self.stage = WizardStage::Measuring {
                            axis: axis + 1,
                            range: AxisRange::new(sample.axes[axis + 1]),
                        };
                    } else {
                        self.stage = WizardStage::Summary;
                    }
                } else if cancel {
                    self.stage = WizardStage::Cancel;
                }
            },
            WizardStage::Summary => {
                let yes = match key {
                    WizardKey::Enter => true,
                    WizardKey::Char(c) => c == 'y' || c == 'Y',
                    _ => false,
                };
                let no = match key {
                    WizardKey::Esc => true,
                    WizardKey::Char(c) => c == 'n' || c == 'N',
                    _ => false,
                };
                if yes {
                    self.stage = WizardStage::Save;
                } else if no {
                    self.stage = WizardStage::Discard;
                }
            },
            _ => {},
        }
    }
}

} // verus!
