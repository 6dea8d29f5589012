//! Force feedback effect types and HID output report construction.
//!
//! Covers all 12 HID PID (Physical Interface Device) effect types:
//! Constant Force, Ramp, Square, Sine, Triangle, Sawtooth Up/Down,
//! Spring, Damper, Inertia, Friction, and Custom Force.

use vstd::prelude::*;

use crate::bytes::{i16_hi, i16_le, i16_lo, i16_to_le, lemma_i16_bytes, lemma_u16_bytes, u16_hi, u16_le, u16_lo, u16_to_le};

verus! {

// ── Primitive types ──────────────────────────────────────────────────────────

/// Waveform for periodic effects.
#[derive(Debug, Clone, Copy, PartialEq, Eq, Structural)]
pub enum Waveform {
    Square,
    Sine,
    Triangle,
    SawtoothUp,
    SawtoothDown,
}

/// Conditional effect type.
#[derive(Debug, Clone, Copy, PartialEq, Eq, Structural)]
pub enum ConditionType {
    Spring,
    Damper,
    Inertia,
    Friction,
}

/// Attack / fade envelope applied to an effect.
#[derive(Debug, Clone, Copy, PartialEq, Eq, Structural)]
pub struct FfbEnvelope {
    /// Level at the start of attack (0 – 32 767).
    pub attack_level: u16,
    /// Duration of the attack phase in ms.
    pub attack_time_ms: u16,
    /// Level at the start of fade (0 – 32 767).
    pub fade_level: u16,
    /// Duration of the fade phase in ms.
    pub fade_time_ms: u16,
}

/// Per-axis parameters for a conditional effect.
#[derive(Debug, Clone, Copy, PartialEq, Eq, Structural)]
pub struct ConditionParams {
    /// Centre-point offset (signed).
    pub center_point_offset: i16,
    /// Coefficient for positive deflection.
    pub positive_coefficient: i16,
    /// Coefficient for negative deflection.
    pub negative_coefficient: i16,
    /// Maximum force on the positive side (0 – 32 767).
    pub positive_saturation: u16,
    /// Maximum force on the negative side (0 – 32 767).
    pub negative_saturation: u16,
    /// Dead-band width around the centre (0 – 32 767).
    pub dead_band: u16,
}

// ── Effect params ─────────────────────────────────────────────────────────────

/// Type-specific parameters for a force feedback effect.
#[derive(Debug, Clone, Copy, PartialEq)]
pub enum FfbEffectParams {
    /// Constant directional force.
    ConstantForce { magnitude: i16 },
    /// Force that ramps linearly from `start` to `end`.
    Ramp { start: i16, end: i16 },
    /// Periodic waveform effect.
    Periodic {
        waveform: Waveform,
        /// Peak-to-peak magnitude (0 – 32 767).
        magnitude: i16,
        /// DC offset applied to the waveform.
        offset: i16,
        /// Waveform period in ms.
        period_ms: u16,
        /// Phase shift (0 – 35 999, in hundredths of a degree).
        phase: u16,
    },
    /// Conditional effect (spring, damper, inertia, or friction).
    Condition {
        condition_type: ConditionType,
        /// One entry per axis (index 0 = X, index 1 = Y).
        conditions: [ConditionParams; 2],
    },
    /// Custom force data (sample array sent separately).
    CustomForce { sample_count: u16, sample_period_ms: u16 },
}

// ── Top-level effect ──────────────────────────────────────────────────────────

/// A complete force feedback effect definition.
///
/// Corresponds to a HID PID "Set Effect" report plus any type-specific
/// parameter reports and an optional envelope report.
#[derive(Debug, Clone, PartialEq)]
pub struct FfbEffect {
    /// Effect slot index (1-based, as per HID PID spec; range 1 – 40).
    pub effect_block_index: u8,
    /// Duration in ms.  Use `0xFFFF` for an infinite effect.
    pub duration_ms: u16,
    /// Effect gain (0 – 255).
    pub gain: u8,
    /// Direction in hundredths of a degree (0 – 35 999).
    pub direction: u16,
    /// Delay before the effect starts, in ms.
    pub start_delay_ms: u16,
    /// Button that triggers the effect (0-based), or `None` for no trigger.
    pub trigger_button: Option<u8>,
    /// Re-trigger interval in ms (0 = no auto-repeat).
    pub trigger_repeat_ms: u16,
    /// Optional attack / fade envelope.
    pub envelope: Option<FfbEnvelope>,
    /// Type-specific parameters.
    pub params: FfbEffectParams,
}

// ── Operation commands ────────────────────────────────────────────────────────

/// Commands sent to the device to control effect playback and global state.
#[derive(Debug, Clone, Copy, PartialEq, Eq, Structural)]
pub enum FfbOperation {
    /// Start playing an effect (stops others if `solo` is true).
    Start { effect_block_index: u8, solo: bool },
    /// Stop a specific effect.
    Stop { effect_block_index: u8 },
    /// Stop all active effects.
    StopAll,
    /// Free an effect slot.
    Free { effect_block_index: u8 },
    /// Free all effect slots.
    FreeAll,
    /// Set the device-level gain (0 – 255).
    SetGain { gain: u8 },
    /// Enable or disable the device actuators (physical motors).
    ///
    /// Sends a HID PID Device Control report (report ID `0x1A`).
    /// `true` → Enable Actuators (`0x01`), `false` → Disable Actuators (`0x02`).
    EnableActuators { enable: bool },
}

// ── Report IDs ────────────────────────────────────────────────────────────────

/// HID PID report ID for the Device Gain output report.
pub const REPORT_ID_DEVICE_GAIN: u8 = 0x0D;

/// HID PID report ID: Set Effect.
pub const REPORT_ID_SET_EFFECT: u8 = 0x01;

/// HID PID report ID: Set Envelope.
pub const REPORT_ID_SET_ENVELOPE: u8 = 0x02;

/// HID PID report ID: Set Condition.
pub const REPORT_ID_SET_CONDITION: u8 = 0x03;

/// HID PID report ID: Set Periodic.
pub const REPORT_ID_SET_PERIODIC: u8 = 0x04;

/// HID PID report ID: Set Constant Force.
pub const REPORT_ID_SET_CONSTANT_FORCE: u8 = 0x05;

/// HID PID report ID: Set Ramp Force.
pub const REPORT_ID_SET_RAMP_FORCE: u8 = 0x06;

/// HID PID report ID: Effect Operation.
pub const REPORT_ID_EFFECT_OPERATION: u8 = 0x0A;

/// HID PID report ID: Device Control (enables or disables actuators).
pub const REPORT_ID_DEVICE_CONTROL: u8 = 0x1A;

// ── Report contents ───────────────────────────────────────────────────────────

/// The bytes of the output report for an operation.
pub open spec fn operation_report(op: FfbOperation) -> Seq<u8> {
    match op {
        FfbOperation::Start { effect_block_index, solo } => seq![
            REPORT_ID_EFFECT_OPERATION,
            effect_block_index,
            if solo { 0x02u8 } else { 0x01u8 },
            0x01u8,
        ],
        FfbOperation::Stop { effect_block_index } => seq![
            REPORT_ID_EFFECT_OPERATION,
            effect_block_index,
            0x03u8,
            0x00u8,
        ],
        FfbOperation::StopAll => seq![REPORT_ID_EFFECT_OPERATION, 0xFFu8, 0x03u8, 0x00u8],
        FfbOperation::Free { effect_block_index } => seq![
            REPORT_ID_EFFECT_OPERATION,
            effect_block_index,
            0x00u8,
            0x00u8,
        ],
        FfbOperation::FreeAll => seq![REPORT_ID_EFFECT_OPERATION, 0xFFu8, 0x00u8, 0x00u8],
        FfbOperation::SetGain { gain } => seq![REPORT_ID_DEVICE_GAIN, gain],
        FfbOperation::EnableActuators { enable } => seq![
            REPORT_ID_DEVICE_CONTROL,
            if enable { 0x01u8 } else { 0x02u8 },
        ],
    }
}

/// The PID effect-type code of a parameter set.
pub open spec fn effect_type_code(params: FfbEffectParams) -> u8 {
    match params {
        FfbEffectParams::ConstantForce { .. } => 0x01,
        FfbEffectParams::Ramp { .. } => 0x02,
        FfbEffectParams::Periodic { waveform, .. } => match waveform {
            Waveform::Square => 0x03,
            Waveform::Sine => 0x04,
            Waveform::Triangle => 0x05,
            Waveform::SawtoothUp => 0x06,
            Waveform::SawtoothDown => 0x07,
        },
        FfbEffectParams::Condition { condition_type, .. } => match condition_type {
            ConditionType::Spring => 0x08,
            ConditionType::Damper => 0x09,
            ConditionType::Inertia => 0x0A,
            ConditionType::Friction => 0x0B,
        },
        FfbEffectParams::CustomForce { .. } => 0x0C,
    }
}

/// The trigger-button byte: 1-based button number, or `0xFF` for none.
pub open spec fn trigger_byte(trigger: Option<u8>) -> u8 {
    match trigger {
        Some(b) => (b + 1) as u8,
        None => 0xFF,
    }
}

/// The Set Effect report of an effect.
pub open spec fn set_effect_report(e: FfbEffect) -> Seq<u8> {
    seq![
        REPORT_ID_SET_EFFECT,
        e.effect_block_index,
        effect_type_code(e.params),
        u16_lo(e.duration_ms),
        u16_hi(e.duration_ms),
        u16_lo(e.trigger_repeat_ms),
        u16_hi(e.trigger_repeat_ms),
        0x00u8,
        0x00u8,
        u16_lo(e.start_delay_ms),
        u16_hi(e.start_delay_ms),
        e.gain,
        trigger_byte(e.trigger_button),
        0x03u8,
        0x01u8,
        u16_lo(e.direction),
        u16_hi(e.direction),
    ]
}

/// The Set Condition report for one axis of a conditional effect.
pub open spec fn condition_report(idx: u8, axis: u8, c: ConditionParams) -> Seq<u8> {
    seq![
        REPORT_ID_SET_CONDITION,
        idx,
        axis,
        i16_lo(c.center_point_offset),
        i16_hi(c.center_point_offset),
        i16_lo(c.positive_coefficient),
        i16_hi(c.positive_coefficient),
        i16_lo(c.negative_coefficient),
        i16_hi(c.negative_coefficient),
        u16_lo(c.positive_saturation),
        u16_hi(c.positive_saturation),
        u16_lo(c.negative_saturation),
        u16_hi(c.negative_saturation),
        u16_lo(c.dead_band),
        u16_hi(c.dead_band),
    ]
}

/// The Set Envelope report of an effect slot.
pub open spec fn envelope_report(idx: u8, env: FfbEnvelope) -> Seq<u8> {
    seq![
        REPORT_ID_SET_ENVELOPE,
        idx,
        u16_lo(env.attack_level),
        u16_hi(env.attack_level),
        u16_lo(env.fade_level),
        u16_hi(env.fade_level),
        u16_lo(env.attack_time_ms),
        u16_hi(env.attack_time_ms),
        u16_lo(env.fade_time_ms),
        u16_hi(env.fade_time_ms),
    ]
}

/// The type-specific parameter reports of an effect, in sending order.
pub open spec fn type_reports(e: FfbEffect) -> Seq<Seq<u8>> {
    let idx = e.effect_block_index;
    match e.params {
        FfbEffectParams::ConstantForce { magnitude } => seq![
            seq![REPORT_ID_SET_CONSTANT_FORCE, idx, i16_lo(magnitude), i16_hi(magnitude)],
        ],
        FfbEffectParams::Ramp { start, end } => seq![
            seq![
                REPORT_ID_SET_RAMP_FORCE,
                idx,
                i16_lo(start),
                i16_hi(start),
                i16_lo(end),
                i16_hi(end),
            ],
        ],
        FfbEffectParams::Periodic { magnitude, offset, period_ms, phase, .. } => seq![
            seq![
                REPORT_ID_SET_PERIODIC,
                idx,
                i16_lo(magnitude),
                i16_hi(magnitude),
                i16_lo(offset),
                i16_hi(offset),
                u16_lo(period_ms),
                u16_hi(period_ms),
                u16_lo(phase),
                u16_hi(phase),
            ],
        ],
        FfbEffectParams::Condition { conditions, .. } => seq![
            condition_report(idx, 0, conditions[0]),
            condition_report(idx, 1, conditions[1]),
        ],
        FfbEffectParams::CustomForce { .. } => Seq::empty(),
    }
}

/// Every report that defines an effect, in sending order: Set Effect, the
/// type-specific reports, then Set Envelope when an envelope is set.
pub open spec fn effect_reports(e: FfbEffect) -> Seq<Seq<u8>> {
    let head = seq![set_effect_report(e)] + type_reports(e);
    match e.envelope {
        Some(env) => head.push(envelope_report(e.effect_block_index, env)),
        None => head,
    }
}

/// A report read as a Set Condition report of the documented layout: report
/// ID 0x03, the effect block index, the axis, then the centre-point offset,
/// the positive and the negative coefficient (signed), the positive and the
/// negative saturation and the dead band (unsigned), each as two
/// little-endian bytes at offsets 3, 5, 7, 9, 11 and 13.
pub open spec fn reads_as_condition(r: Seq<u8>, idx: u8, axis: u8, c: ConditionParams) -> bool {
    &&& r.len() == 15
    &&& r[0] == 0x03 && r[1] == idx && r[2] == axis
    &&& i16_le(r[3], r[4]) == c.center_point_offset
    &&& i16_le(r[5], r[6]) == c.positive_coefficient
    &&& i16_le(r[7], r[8]) == c.negative_coefficient
    &&& u16_le(r[9], r[10]) == c.positive_saturation
    &&& u16_le(r[11], r[12]) == c.negative_saturation
    &&& u16_le(r[13], r[14]) == c.dead_band
}

/// A conditional effect is sent as its Set Effect report followed by one Set
/// Condition report per axis, X (axis 0) then Y (axis 1); reading each back
/// at the documented offsets gives that axis's parameters.
pub proof fn lemma_condition_reports_layout(e: FfbEffect)
    requires
        e.params is Condition,
    ensures
        effect_reports(e).len() >= 3,
        reads_as_condition(effect_reports(e)[1], e.effect_block_index, 0, e.params->conditions[0]),
        reads_as_condition(effect_reports(e)[2], e.effect_block_index, 1, e.params->conditions[1]),
{
    let c0 = e.params->conditions[0];
    let c1 = e.params->conditions[1];
    lemma_i16_bytes(c0.center_point_offset);
    lemma_i16_bytes(c0.positive_coefficient);
    lemma_i16_bytes(c0.negative_coefficient);
    lemma_u16_bytes(c0.positive_saturation);
    lemma_u16_bytes(c0.negative_saturation);
    lemma_u16_bytes(c0.dead_band);
    lemma_i16_bytes(c1.center_point_offset);
    lemma_i16_bytes(c1.positive_coefficient);
    lemma_i16_bytes(c1.negative_coefficient);
    lemma_u16_bytes(c1.positive_saturation);
    lemma_u16_bytes(c1.negative_saturation);
    lemma_u16_bytes(c1.dead_band);
}

/// Every effect is sent first as a Set Effect report of the documented
/// layout: report ID 0x01, the block index, the effect type, the duration,
/// the trigger-repeat interval, a zero sample period, the start delay (each
/// two little-endian bytes at offsets 3, 5, 7 and 9), the gain at 11, the
/// 1-based trigger button (0xFF for none) at 12, and the direction at 15-16.
/// An envelope, when set, is the last report: report ID 0x02, the block
/// index, then attack level, fade level, attack time and fade time at
/// offsets 2, 4, 6 and 8.
pub proof fn lemma_set_effect_layout(e: FfbEffect)
    ensures
        effect_reports(e).len() >= 1,
        effect_reports(e)[0].len() == 17,
        effect_reports(e)[0][0] == 0x01 && effect_reports(e)[0][1] == e.effect_block_index,
        u16_le(effect_reports(e)[0][3], effect_reports(e)[0][4]) == e.duration_ms,
        u16_le(effect_reports(e)[0][5], effect_reports(e)[0][6]) == e.trigger_repeat_ms,
        u16_le(effect_reports(e)[0][7], effect_reports(e)[0][8]) == 0,
        u16_le(effect_reports(e)[0][9], effect_reports(e)[0][10]) == e.start_delay_ms,
        effect_reports(e)[0][11] == e.gain,
        e.trigger_button.is_none() ==> effect_reports(e)[0][12] == 0xFF,
        e.trigger_button matches Some(b) ==> (b < 255 ==> effect_reports(e)[0][12] == b + 1),
        u16_le(effect_reports(e)[0][15], effect_reports(e)[0][16]) == e.direction,
        e.envelope matches Some(env) ==> {
            let r = effect_reports(e).last();
            &&& r.len() == 10
            &&& r[0] == 0x02 && r[1] == e.effect_block_index
            &&& u16_le(r[2], r[3]) == env.attack_level
            &&& u16_le(r[4], r[5]) == env.fade_level
            &&& u16_le(r[6], r[7]) == env.attack_time_ms
            &&& u16_le(r[8], r[9]) == env.fade_time_ms
        },
{
    lemma_u16_bytes(e.duration_ms);
    lemma_u16_bytes(e.trigger_repeat_ms);
    lemma_u16_bytes(e.start_delay_ms);
    lemma_u16_bytes(e.direction);
    if let Some(env) = e.envelope {
        lemma_u16_bytes(env.attack_level);
        lemma_u16_bytes(env.fade_level);
        lemma_u16_bytes(env.attack_time_ms);
        lemma_u16_bytes(env.fade_time_ms);
    }
}

/// The parameter report that follows Set Effect has the documented layout
/// for each kind: Set Constant Force (0x05) carries the magnitude at 2-3;
/// Set Ramp Force (0x06) the start at 2-3 and the end at 4-5; Set Periodic
/// (0x04) the magnitude at 2-3, the offset at 4-5, the period at 6-7 and the
/// phase at 8-9; each with the block index at byte 1.
pub proof fn lemma_parameter_report_layout(e: FfbEffect)
    ensures
        e.params matches FfbEffectParams::ConstantForce { magnitude } ==> {
            let r = effect_reports(e)[1];
            &&& effect_reports(e).len() >= 2 && r.len() == 4
            &&& r[0] == 0x05 && r[1] == e.effect_block_index
            &&& i16_le(r[2], r[3]) == magnitude
        },
        e.params matches FfbEffectParams::Ramp { start, end } ==> {
            let r = effect_reports(e)[1];
            &&& effect_reports(e).len() >= 2 && r.len() == 6
            &&& r[0] == 0x06 && r[1] == e.effect_block_index
            &&& i16_le(r[2], r[3]) == start
            &&& i16_le(r[4], r[5]) == end
        },
        e.params matches FfbEffectParams::Periodic { magnitude, offset, period_ms, phase, .. } ==> {
            let r = effect_reports(e)[1];
            &&& effect_reports(e).len() >= 2 && r.len() == 10
            &&& r[0] == 0x04 && r[1] == e.effect_block_index
            &&& i16_le(r[2], r[3]) == magnitude
            &&& i16_le(r[4], r[5]) == offset
            &&& u16_le(r[6], r[7]) == period_ms
            &&& u16_le(r[8], r[9]) == phase
        },
{
    match e.params {
        FfbEffectParams::ConstantForce { magnitude } => {
            lemma_i16_bytes(magnitude);
        },
        FfbEffectParams::Ramp { start, end } => {
            lemma_i16_bytes(start);
            lemma_i16_bytes(end);
        },
        FfbEffectParams::Periodic { magnitude, offset, period_ms, phase, .. } => {
            lemma_i16_bytes(magnitude);
            lemma_i16_bytes(offset);
            lemma_u16_bytes(period_ms);
            lemma_u16_bytes(phase);
        },
        _ => {},
    }
}

/// The byte contents of a list of reports.
pub open spec fn byte_rows(rows: Seq<Vec<u8>>) -> Seq<Seq<u8>> {
    rows.map_values(|v: Vec<u8>| v@)
}

/// An effect whose trigger byte can be formed (the 1-based trigger number fits a byte).
pub open spec fn effect_encodable(e: FfbEffect) -> bool {
    e.trigger_button != Some(255u8)
}

// ── Report builders ───────────────────────────────────────────────────────────

/// Build HID output report bytes for an [`FfbOperation`].
pub fn build_operation_report(op: FfbOperation) -> (r: Vec<u8>)
    ensures
        r@ == operation_report(op),
{
    match op {
        FfbOperation::Start { effect_block_index, solo } => vec![
            REPORT_ID_EFFECT_OPERATION,
            effect_block_index,
            if solo {
                0x02
            } else {
                0x01
            },
            0x01,
        ],
        FfbOperation::Stop { effect_block_index } => {
            vec![REPORT_ID_EFFECT_OPERATION, effect_block_index, 0x03, 0x00]
        },
        FfbOperation::StopAll => vec![REPORT_ID_EFFECT_OPERATION, 0xFF, 0x03, 0x00],
        FfbOperation::Free { effect_block_index } => {
            vec![REPORT_ID_EFFECT_OPERATION, effect_block_index, 0x00, 0x00]
        },
        FfbOperation::FreeAll => vec![REPORT_ID_EFFECT_OPERATION, 0xFF, 0x00, 0x00],
        FfbOperation::SetGain { gain } => vec![REPORT_ID_DEVICE_GAIN, gain],
        FfbOperation::EnableActuators { enable } => {
            vec![
                REPORT_ID_DEVICE_CONTROL,
                if enable {
                    0x01
                } else {
                    0x02
                },
            ]
        },
    }
}

/// Build the sequence of HID output reports needed to define a complete [`FfbEffect`].
///
/// Returns one or more report byte-vectors in the order they must be sent:
/// 1. Set Effect report (mandatory)
/// 2. Type-specific parameter report(s)
/// 3. Set Envelope report (if an envelope is set)
pub fn build_effect_reports(effect: &FfbEffect) -> (r: Vec<Vec<u8>>)
    requires
        effect_encodable(*effect),
    ensures
        byte_rows(r@) == effect_reports(*effect),
{
    let mut reports: Vec<Vec<u8>> = Vec::new();
    reports.push(build_set_effect_report(effect));
    proof {
        assert(byte_rows(reports@) =~= seq![set_effect_report(*effect)]);
    }
    push_type_reports(effect, &mut reports);
    if let Some(env) = effect.envelope {
        let ghost before = byte_rows(reports@);
        reports.push(build_envelope_report(effect.effect_block_index, env));
        proof {
            assert(byte_rows(reports@) =~= before.push(
                envelope_report(effect.effect_block_index, env),
            ));
        }
    }
    reports
}

/// Build the mandatory Set Effect (0x01) report.
fn build_set_effect_report(effect: &FfbEffect) -> (r: Vec<u8>)
    requires
        effect_encodable(*effect),
    ensures
        r@ == set_effect_report(*effect),
{
    let effect_type = effect_type_byte(&effect.params);
    let trigger_btn = match effect.trigger_button {
        Some(b) => b + 1,
        None => 0xFF,
    };
    let (dur_lo, dur_hi) = u16_to_le(effect.duration_ms);
    let (rep_lo, rep_hi) = u16_to_le(effect.trigger_repeat_ms);
    let (del_lo, del_hi) = u16_to_le(effect.start_delay_ms);
    let (dir_lo, dir_hi) = u16_to_le(effect.direction);
    let r = vec![
        REPORT_ID_SET_EFFECT,
        effect.effect_block_index,
        effect_type,
        dur_lo,
        dur_hi,
        rep_lo,
        rep_hi,
        0x00,
        0x00,
        del_lo,
        del_hi,
        effect.gain,
        trigger_btn,
        0x03,
        0x01,
        dir_lo,
        dir_hi,
    ];
    proof {
        assert(r@ =~= set_effect_report(*effect));
    }
    r
}

/// Append the type-specific parameter report(s) for an effect.
fn push_type_reports(effect: &FfbEffect, reports: &mut Vec<Vec<u8>>)
    ensures
        byte_rows(final(reports)@) == byte_rows(old(reports)@) + type_reports(*effect),
{
    let idx = effect.effect_block_index;
    let ghost before = byte_rows(reports@);
    match &effect.params {
        FfbEffectParams::ConstantForce { magnitude } => {
            let (lo, hi) = i16_to_le(*magnitude);
            reports.push(vec![REPORT_ID_SET_CONSTANT_FORCE, idx, lo, hi]);
            proof {
                assert(byte_rows(reports@) =~= before + type_reports(*effect));
            }
        },
        FfbEffectParams::Ramp { start, end } => {
            let (s_lo, s_hi) = i16_to_le(*start);
            let (e_lo, e_hi) = i16_to_le(*end);
            reports.push(vec![REPORT_ID_SET_RAMP_FORCE, idx, s_lo, s_hi, e_lo, e_hi]);
            proof {
                assert(byte_rows(reports@) =~= before + type_reports(*effect));
            }
        },
        FfbEffectParams::Periodic { waveform: _, magnitude, offset, period_ms, phase } => {
            let (m_lo, m_hi) = i16_to_le(*magnitude);
            let (o_lo, o_hi) = i16_to_le(*offset);
            let (p_lo, p_hi) = u16_to_le(*period_ms);
            let (ph_lo, ph_hi) = u16_to_le(*phase);
            reports.push(
                vec![
                    REPORT_ID_SET_PERIODIC,
                    idx,
                    m_lo,
                    m_hi,
                    o_lo,
                    o_hi,
                    p_lo,
                    p_hi,
                    ph_lo,
                    ph_hi,
                ],
            );
            proof {
                assert(byte_rows(reports@) =~= before + type_reports(*effect));
            }
        },
        FfbEffectParams::Condition { condition_type: _, conditions } => {
            reports.push(build_condition_report(idx, 0, &conditions[0]));
            reports.push(build_condition_report(idx, 1, &conditions[1]));
            proof {
                assert(byte_rows(reports@) =~= before + type_reports(*effect));
            }
        },
        FfbEffectParams::CustomForce { .. } => {
            // Custom force data is streamed separately — no parameter report here.
            proof {
                assert(byte_rows(reports@) =~= before + type_reports(*effect));
            }
        },
    }
}

/// Build a Set Condition (0x03) report for one axis.
fn build_condition_report(effect_block_index: u8, axis: u8, cond: &ConditionParams) -> (r: Vec<u8>)
    ensures
        r@ == condition_report(effect_block_index, axis, *cond),
{
    let (cp_lo, cp_hi) = i16_to_le(cond.center_point_offset);
    let (pc_lo, pc_hi) = i16_to_le(cond.positive_coefficient);
    let (nc_lo, nc_hi) = i16_to_le(cond.negative_coefficient);
    let (ps_lo, ps_hi) = u16_to_le(cond.positive_saturation);
    let (ns_lo, ns_hi) = u16_to_le(cond.negative_saturation);
    let (db_lo, db_hi) = u16_to_le(cond.dead_band);
    let r = vec![
        REPORT_ID_SET_CONDITION,
        effect_block_index,
        axis,
        cp_lo,
        cp_hi,
        pc_lo,
        pc_hi,
        nc_lo,
        nc_hi,
        ps_lo,
        ps_hi,
        ns_lo,
        ns_hi,
        db_lo,
        db_hi,
    ];
    proof {
        assert(r@ =~= condition_report(effect_block_index, axis, *cond));
    }
    r
}

/// Build the Set Envelope (0x02) report.
fn build_envelope_report(effect_block_index: u8, env: FfbEnvelope) -> (r: Vec<u8>)
    ensures
        r@ == envelope_report(effect_block_index, env),
{
    let (al_lo, al_hi) = u16_to_le(env.attack_level);
    let (fl_lo, fl_hi) = u16_to_le(env.fade_level);
    let (at_lo, at_hi) = u16_to_le(env.attack_time_ms);
    let (ft_lo, ft_hi) = u16_to_le(env.fade_time_ms);
    let r = vec![
        REPORT_ID_SET_ENVELOPE,
        effect_block_index,
        al_lo,
        al_hi,
        fl_lo,
        fl_hi,
        at_lo,
        at_hi,
        ft_lo,
        ft_hi,
    ];
    proof {
        assert(r@ =~= envelope_report(effect_block_index, env));
    }
    r
}

/// The PID effect-type code of a parameter set.
pub fn effect_type_byte(params: &FfbEffectParams) -> (t: u8)
    ensures
        t == effect_type_code(*params),
{
    match params {
        FfbEffectParams::ConstantForce { .. } => 0x01,
        FfbEffectParams::Ramp { .. } => 0x02,
        FfbEffectParams::Periodic { waveform, .. } => match waveform {
            Waveform::Square => 0x03,
            Waveform::Sine => 0x04,
            Waveform::Triangle => 0x05,
            Waveform::SawtoothUp => 0x06,
            Waveform::SawtoothDown => 0x07,
        },
        FfbEffectParams::Condition { condition_type, .. } => match condition_type {
            ConditionType::Spring => 0x08,
            ConditionType::Damper => 0x09,
            ConditionType::Inertia => 0x0A,
            ConditionType::Friction => 0x0B,
        },
        FfbEffectParams::CustomForce { .. } => 0x0C,
    }
}

} // verus!
