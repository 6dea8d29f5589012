//! HID report descriptor for the Sidewinder Force Feedback 2 virtual device.
//!
//! The descriptor declares:
//!
//! - **Input reports** (Report ID 0): axes (X, Y, Z, Rz), buttons 1-9, hat
//! - **PID force-feedback output reports**: Set Effect, Set Envelope, Set
//!   Condition, Set Periodic, Set Constant Force, Set Ramp Force, Effect
//!   Operation, Block Free, Device Control, Device Gain, and the PID State
//!   input report
//!
//! Returned to HIDCLASS in response to `IOCTL_HID_GET_REPORT_DESCRIPTOR`.

use vstd::prelude::*;

use crate::config::BUTTON_COUNT;

verus! {

// ── HID constants ─────────────────────────────────────────────────────────────

pub const UP_GENERIC_DESKTOP: u8 = 0x01;
pub const UP_PID: u8 = 0x0F;
pub const GD_JOYSTICK: u8 = 0x04;
pub const GD_X: u8 = 0x30;
pub const GD_Y: u8 = 0x31;
pub const GD_Z: u8 = 0x32;
pub const GD_RZ: u8 = 0x35;
pub const GD_HAT_SWITCH: u8 = 0x39;
pub const PID_SET_EFFECT_REPORT: u8 = 0x21;
pub const PID_EFFECT_BLOCK_INDEX: u8 = 0x22;
pub const PID_PARAM_BLOCK_OFFSET: u8 = 0x23;
pub const PID_EFFECT_TYPE: u8 = 0x25;
pub const PID_ET_CONSTANT_FORCE: u8 = 0x26;
pub const PID_ET_RAMP: u8 = 0x27;
pub const PID_ET_SQUARE: u8 = 0x30;
pub const PID_ET_SINE: u8 = 0x31;
pub const PID_ET_TRIANGLE: u8 = 0x32;
pub const PID_ET_SAWTOOTH_UP: u8 = 0x33;
pub const PID_ET_SAWTOOTH_DOWN: u8 = 0x34;
pub const PID_ET_SPRING: u8 = 0x40;
pub const PID_ET_DAMPER: u8 = 0x41;
pub const PID_ET_INERTIA: u8 = 0x42;
pub const PID_ET_FRICTION: u8 = 0x43;
pub const PID_ET_CUSTOM_FORCE_DATA: u8 = 0x50;
pub const PID_DIRECTION: u8 = 0x57;
pub const PID_SET_ENVELOPE_REPORT: u8 = 0x5A;
pub const PID_ATTACK_LEVEL: u8 = 0x5B;
pub const PID_ATTACK_TIME: u8 = 0x5C;
pub const PID_FADE_LEVEL: u8 = 0x5D;
pub const PID_FADE_TIME: u8 = 0x5E;
pub const PID_SET_CONDITION_REPORT: u8 = 0x5F;
pub const PID_CP_OFFSET: u8 = 0x60;
pub const PID_POSITIVE_COEFFICIENT: u8 = 0x61;
pub const PID_NEGATIVE_COEFFICIENT: u8 = 0x62;
pub const PID_POSITIVE_SATURATION: u8 = 0x63;
pub const PID_NEGATIVE_SATURATION: u8 = 0x64;
pub const PID_DEAD_BAND: u8 = 0x65;
pub const PID_EFFECT_OPERATION_REPORT: u8 = 0x77;
pub const PID_EFFECT_OPERATION: u8 = 0x78;
pub const PID_OP_EFFECT_START: u8 = 0x01;
pub const PID_OP_EFFECT_START_SOLO: u8 = 0x02;
pub const PID_OP_EFFECT_STOP: u8 = 0x03;
pub const PID_LOOP_COUNT: u8 = 0x7C;
pub const PID_BLOCK_FREE_REPORT: u8 = 0x90;
pub const PID_DEVICE_CONTROL_REPORT: u8 = 0x96;
pub const PID_DEVICE_CONTROL: u8 = 0x97;
pub const PID_DC_ENABLE_ACTUATORS: u8 = 0x98;
pub const PID_DC_DISABLE_ACTUATORS: u8 = 0x99;
pub const PID_DC_STOP_ALL_EFFECTS: u8 = 0x9A;
pub const PID_DC_DEVICE_RESET: u8 = 0x9B;
pub const PID_DC_DEVICE_PAUSE: u8 = 0x9C;
pub const PID_DC_DEVICE_CONTINUE: u8 = 0x9D;
pub const PID_DEVICE_GAIN_REPORT: u8 = 0x9E;
pub const PID_DEVICE_GAIN: u8 = 0x9F;
pub const PID_PID_STATE_REPORT: u8 = 0xA3;
pub const PID_EFFECT_PLAYING: u8 = 0xA8;
pub const PID_ACTUATORS_ENABLED: u8 = 0xA9;
pub const PID_PAUSED: u8 = 0xAA;
pub const PID_SAFETY_SWITCH: u8 = 0xAB;
pub const PID_ACTUATOR_POWER: u8 = 0xAC;
pub const PID_MAGNITUDE: u8 = 0x70;
pub const PID_OFFSET: u8 = 0x71;
pub const PID_PHASE: u8 = 0x72;
pub const PID_PERIOD: u8 = 0x73;
pub const PID_START_DELAY: u8 = 0xA7;
pub const PID_TRIGGER_BUTTON: u8 = 0xA4;
pub const PID_TRIGGER_REPEAT_INTERVAL: u8 = 0xA5;
pub const PID_DURATION: u8 = 0xA6;
pub const PID_SAMPLE_PERIOD: u8 = 0x28;
pub const PID_GAIN: u8 = 0x6F;
pub const PID_SET_PERIODIC_REPORT: u8 = 0x6E;
pub const PID_SET_CONSTANT_FORCE_REPORT: u8 = 0x73;
pub const PID_MAGNITUDE_CF: u8 = 0x70;
pub const PID_SET_RAMP_FORCE_REPORT: u8 = 0x74;
pub const PID_RAMP_START: u8 = 0x75;
pub const PID_RAMP_END: u8 = 0x76;
pub const UP_BUTTON: u8 = 0x09;
pub const INPUT: u8 = 0x81;
pub const OUTPUT: u8 = 0x91;
pub const COLLECTION: u8 = 0xA1;
pub const END_COLLECTION: u8 = 0xC0;
pub const USAGE: u8 = 0x09;
pub const USAGE_PAGE: u8 = 0x05;
pub const USAGE_MIN: u8 = 0x19;
pub const USAGE_MAX: u8 = 0x29;
pub const LOGICAL_MIN: u8 = 0x15;
pub const LOGICAL_MAX: u8 = 0x25;
pub const LOGICAL_MAX_32: u8 = 0x27;
pub const LOGICAL_MIN_32: u8 = 0x17;
pub const PHYSICAL_MIN: u8 = 0x35;
pub const PHYSICAL_MAX: u8 = 0x45;
pub const REPORT_ID: u8 = 0x85;
pub const REPORT_SIZE: u8 = 0x75;
pub const REPORT_COUNT: u8 = 0x95;
pub const DATA_VAR_ABS: u8 = 0x02;
pub const CONST_VAR_ABS: u8 = 0x03;
pub const DATA_ARR_ABS: u8 = 0x00;
pub const NARY: u8 = 0x20;
pub const COL_APPLICATION: u8 = 0x01;
pub const COL_LOGICAL: u8 = 0x02;

// ── Descriptor ────────────────────────────────────────────────────────────────

/// Length of the report descriptor in bytes.
pub const REPORT_DESCRIPTOR_LEN: usize = 670;

/// The full HID report descriptor for the Sidewinder FF2 virtual device,
/// byte by byte.
pub open spec fn descriptor_bytes() -> Seq<u8> {
    seq![
        // ── Joystick application collection ─────────────────────────────────────
        USAGE_PAGE, UP_GENERIC_DESKTOP,
        USAGE,      GD_JOYSTICK,
        COLLECTION, COL_APPLICATION,
        // Input report (no report ID — report ID 0)
        // Axes: X, Y, Z (throttle), Rz (rudder) — 16-bit signed, ±32767
        USAGE,        GD_X,
        USAGE,        GD_Y,
        USAGE,        GD_Z,
        USAGE,        GD_RZ,
        LOGICAL_MIN_32, 0x00, 0x80, 0xFF, 0xFF,    // -32768 as i32
        LOGICAL_MAX_32, 0xFF, 0x7F, 0x00, 0x00,    // +32767 as i32
        PHYSICAL_MIN, 0x00,
        PHYSICAL_MAX, 0x00,
        REPORT_SIZE,  0x10,   // 16 bits
        REPORT_COUNT, 0x04,   // 4 axes
        INPUT,        DATA_VAR_ABS,
        // Buttons 1–9 (1-bit each, 7 padding bits)
        USAGE_PAGE,   UP_BUTTON,
        USAGE_MIN,    0x01,
        USAGE_MAX,    0x09,
        LOGICAL_MIN,  0x00,
        LOGICAL_MAX,  0x01,
        REPORT_SIZE,  0x01,
        REPORT_COUNT, 0x09,
        INPUT,        DATA_VAR_ABS,
        // 7 pad bits to complete the byte
        REPORT_SIZE,  0x01,
        REPORT_COUNT, 0x07,
        INPUT,        CONST_VAR_ABS,
        // Hat switch — 4-bit null-capable (0=N..7=NW, 0xF=null)
        USAGE_PAGE,   UP_GENERIC_DESKTOP,
        USAGE,        GD_HAT_SWITCH,
        LOGICAL_MIN,  0x00,
        LOGICAL_MAX,  0x07,
        PHYSICAL_MIN, 0x00,
        PHYSICAL_MAX, 0x08, // 0–315 degrees in 45° steps; OS maps 0xF→null
        REPORT_SIZE,  0x04,
        REPORT_COUNT, 0x01,
        INPUT,        DATA_VAR_ABS,
        // 4 pad bits
        REPORT_SIZE,  0x04,
        REPORT_COUNT, 0x01,
        INPUT,        CONST_VAR_ABS,
        // ── PID force-feedback reports ────────────────────────────────────────────
        USAGE_PAGE, UP_PID,
        // ── Set Effect (Output, Report ID 0x01) ──────────────────────────────
        USAGE,      PID_SET_EFFECT_REPORT,
        COLLECTION, COL_LOGICAL,
        REPORT_ID,    0x01,
        USAGE,        PID_EFFECT_BLOCK_INDEX,
        LOGICAL_MIN,  0x01,
        LOGICAL_MAX,  0x28,   // max 40 effects
        REPORT_SIZE,  0x08,
        REPORT_COUNT, 0x01,
        OUTPUT,       DATA_VAR_ABS,
        USAGE,        PID_PARAM_BLOCK_OFFSET,
        LOGICAL_MIN,  0x00,
        LOGICAL_MAX,  0x7F,
        REPORT_SIZE,  0x08,
        REPORT_COUNT, 0x01,
        OUTPUT,       DATA_VAR_ABS,
        // Effect type nominal array (11 named values + custom)
        USAGE,        PID_EFFECT_TYPE,
        USAGE,        PID_ET_CONSTANT_FORCE,
        USAGE,        PID_ET_RAMP,
        USAGE,        PID_ET_SQUARE,
        USAGE,        PID_ET_SINE,
        USAGE,        PID_ET_TRIANGLE,
        USAGE,        PID_ET_SAWTOOTH_UP,
        USAGE,        PID_ET_SAWTOOTH_DOWN,
        USAGE,        PID_ET_SPRING,
        USAGE,        PID_ET_DAMPER,
        USAGE,        PID_ET_INERTIA,
        USAGE,        PID_ET_FRICTION,
        USAGE,        PID_ET_CUSTOM_FORCE_DATA,
        LOGICAL_MIN,  0x01,
        LOGICAL_MAX,  0x0C,
        REPORT_SIZE,  0x08,
        REPORT_COUNT, 0x01,
        OUTPUT,       DATA_ARR_ABS | NARY,
        // Duration (ms, u16)
        USAGE,        PID_DURATION,
        LOGICAL_MIN,  0x00,
        LOGICAL_MAX_32, 0xFF, 0xFF, 0x00, 0x00,
        REPORT_SIZE,  0x10,
        REPORT_COUNT, 0x01,
        OUTPUT,       DATA_VAR_ABS,
        // Sample period (ms, u16)
        USAGE,        PID_SAMPLE_PERIOD,
        LOGICAL_MIN,  0x00,
        LOGICAL_MAX_32, 0xFF, 0xFF, 0x00, 0x00,
        REPORT_SIZE,  0x10,
        REPORT_COUNT, 0x01,
        OUTPUT,       DATA_VAR_ABS,
        // Gain (u8)
        USAGE,        PID_GAIN,
        LOGICAL_MIN,  0x00,
        LOGICAL_MAX,  0xFF,
        REPORT_SIZE,  0x08,
        REPORT_COUNT, 0x01,
        OUTPUT,       DATA_VAR_ABS,
        // Direction (hundredths of a degree, u16)
        USAGE,        PID_DIRECTION,
        LOGICAL_MIN,  0x00,
        LOGICAL_MAX_32, 0x2F, 0x8C, 0x00, 0x00,  // 35887 (max 359.99°)
        REPORT_SIZE,  0x10,
        REPORT_COUNT, 0x01,
        OUTPUT,       DATA_VAR_ABS,
        // Trigger button (0-based, 0xFF = none)
        USAGE,        PID_TRIGGER_BUTTON,
        LOGICAL_MIN,  0x00,
        LOGICAL_MAX,  0xFF,
        REPORT_SIZE,  0x08,
        REPORT_COUNT, 0x01,
        OUTPUT,       DATA_VAR_ABS,
        // Trigger repeat interval (ms, u16)
        USAGE,        PID_TRIGGER_REPEAT_INTERVAL,
        LOGICAL_MIN,  0x00,
        LOGICAL_MAX_32, 0xFF, 0xFF, 0x00, 0x00,
        REPORT_SIZE,  0x10,
        REPORT_COUNT, 0x01,
        OUTPUT,       DATA_VAR_ABS,
        // Start delay (ms, u16)
        USAGE,        PID_START_DELAY,
        LOGICAL_MIN,  0x00,
        LOGICAL_MAX_32, 0xFF, 0xFF, 0x00, 0x00,
        REPORT_SIZE,  0x10,
        REPORT_COUNT, 0x01,
        OUTPUT,       DATA_VAR_ABS,
        END_COLLECTION,
        // ── Set Envelope (Output, Report ID 0x02) ────────────────────────────
        USAGE,      PID_SET_ENVELOPE_REPORT,
        COLLECTION, COL_LOGICAL,
        REPORT_ID,    0x02,
        USAGE,        PID_EFFECT_BLOCK_INDEX,
        LOGICAL_MIN,  0x01,
        LOGICAL_MAX,  0x28,
        REPORT_SIZE,  0x08,
        REPORT_COUNT, 0x01,
        OUTPUT,       DATA_VAR_ABS,
        USAGE,        PID_ATTACK_LEVEL,
        USAGE,        PID_FADE_LEVEL,
        LOGICAL_MIN,  0x00,
        LOGICAL_MAX_32, 0xFF, 0x7F, 0x00, 0x00,  // 32767
        REPORT_SIZE,  0x10,
        REPORT_COUNT, 0x02,
        OUTPUT,       DATA_VAR_ABS,
        USAGE,        PID_ATTACK_TIME,
        USAGE,        PID_FADE_TIME,
        LOGICAL_MIN,  0x00,
        LOGICAL_MAX_32, 0xFF, 0xFF, 0x00, 0x00,
        REPORT_SIZE,  0x10,
        REPORT_COUNT, 0x02,
        OUTPUT,       DATA_VAR_ABS,
        END_COLLECTION,
        // ── Set Condition (Output, Report ID 0x03) ───────────────────────────
        USAGE,      PID_SET_CONDITION_REPORT,
        COLLECTION, COL_LOGICAL,
        REPORT_ID,    0x03,
        USAGE,        PID_EFFECT_BLOCK_INDEX,
        LOGICAL_MIN,  0x01,
        LOGICAL_MAX,  0x28,
        REPORT_SIZE,  0x08,
        REPORT_COUNT, 0x01,
        OUTPUT,       DATA_VAR_ABS,
        USAGE,        PID_CP_OFFSET,
        USAGE,        PID_POSITIVE_COEFFICIENT,
        USAGE,        PID_NEGATIVE_COEFFICIENT,
        LOGICAL_MIN_32, 0x00, 0x80, 0xFF, 0xFF,    // -32768
        LOGICAL_MAX_32, 0xFF, 0x7F, 0x00, 0x00,    // +32767
        REPORT_SIZE,  0x10,
        REPORT_COUNT, 0x03,
        OUTPUT,       DATA_VAR_ABS,
        USAGE,        PID_POSITIVE_SATURATION,
        USAGE,        PID_NEGATIVE_SATURATION,
        USAGE,        PID_DEAD_BAND,
        LOGICAL_MIN,  0x00,
        LOGICAL_MAX_32, 0xFF, 0x7F, 0x00, 0x00,
        REPORT_SIZE,  0x10,
        REPORT_COUNT, 0x03,
        OUTPUT,       DATA_VAR_ABS,
        END_COLLECTION,
        // ── Set Periodic (Output, Report ID 0x04) ────────────────────────────
        USAGE,      PID_SET_PERIODIC_REPORT,
        COLLECTION, COL_LOGICAL,
        REPORT_ID,    0x04,
        USAGE,        PID_EFFECT_BLOCK_INDEX,
        LOGICAL_MIN,  0x01,
        LOGICAL_MAX,  0x28,
        REPORT_SIZE,  0x08,
        REPORT_COUNT, 0x01,
        OUTPUT,       DATA_VAR_ABS,
        USAGE,        PID_MAGNITUDE,
        USAGE,        PID_OFFSET,
        LOGICAL_MIN_32, 0x00, 0x80, 0xFF, 0xFF,
        LOGICAL_MAX_32, 0xFF, 0x7F, 0x00, 0x00,
        REPORT_SIZE,  0x10,
        REPORT_COUNT, 0x02,
        OUTPUT,       DATA_VAR_ABS,
        USAGE,        PID_PHASE,
        LOGICAL_MIN,  0x00,
        LOGICAL_MAX_32, 0x2F, 0x8C, 0x00, 0x00,  // 35887
        REPORT_SIZE,  0x10,
        REPORT_COUNT, 0x01,
        OUTPUT,       DATA_VAR_ABS,
        USAGE,        PID_PERIOD,
        LOGICAL_MIN,  0x00,
        LOGICAL_MAX_32, 0xFF, 0xFF, 0x00, 0x00,
        REPORT_SIZE,  0x10,
        REPORT_COUNT, 0x01,
        OUTPUT,       DATA_VAR_ABS,
        END_COLLECTION,
        // ── Set Constant Force (Output, Report ID 0x05) ──────────────────────
        USAGE,      PID_SET_CONSTANT_FORCE_REPORT,
        COLLECTION, COL_LOGICAL,
        REPORT_ID,    0x05,
        USAGE,        PID_EFFECT_BLOCK_INDEX,
        LOGICAL_MIN,  0x01,
        LOGICAL_MAX,  0x28,
        REPORT_SIZE,  0x08,
        REPORT_COUNT, 0x01,
        OUTPUT,       DATA_VAR_ABS,
        USAGE,        PID_MAGNITUDE_CF,
        LOGICAL_MIN_32, 0x00, 0x80, 0xFF, 0xFF,
        LOGICAL_MAX_32, 0xFF, 0x7F, 0x00, 0x00,
        REPORT_SIZE,  0x10,
        REPORT_COUNT, 0x01,
        OUTPUT,       DATA_VAR_ABS,
        END_COLLECTION,
        // ── Set Ramp Force (Output, Report ID 0x06) ──────────────────────────
        USAGE,      PID_SET_RAMP_FORCE_REPORT,
        COLLECTION, COL_LOGICAL,
        REPORT_ID,    0x06,
        USAGE,        PID_EFFECT_BLOCK_INDEX,
        LOGICAL_MIN,  0x01,
        LOGICAL_MAX,  0x28,
        REPORT_SIZE,  0x08,
        REPORT_COUNT, 0x01,
        OUTPUT,       DATA_VAR_ABS,
        USAGE,        PID_RAMP_START,
        USAGE,        PID_RAMP_END,
        LOGICAL_MIN_32, 0x00, 0x80, 0xFF, 0xFF,
        LOGICAL_MAX_32, 0xFF, 0x7F, 0x00, 0x00,
        REPORT_SIZE,  0x10,
        REPORT_COUNT, 0x02,
        OUTPUT,       DATA_VAR_ABS,
        END_COLLECTION,
        // ── Effect Operation (Output, Report ID 0x0A) ─────────────────────────
        USAGE,      PID_EFFECT_OPERATION_REPORT,
        COLLECTION, COL_LOGICAL,
        REPORT_ID,    0x0A,
        USAGE,        PID_EFFECT_BLOCK_INDEX,
        LOGICAL_MIN,  0x01,
        LOGICAL_MAX,  0x28,
        REPORT_SIZE,  0x08,
        REPORT_COUNT, 0x01,
        OUTPUT,       DATA_VAR_ABS,
        USAGE,        PID_EFFECT_OPERATION,
        USAGE,        PID_OP_EFFECT_START,
        USAGE,        PID_OP_EFFECT_START_SOLO,
        USAGE,        PID_OP_EFFECT_STOP,
        LOGICAL_MIN,  0x01,
        LOGICAL_MAX,  0x03,
        REPORT_SIZE,  0x08,
        REPORT_COUNT, 0x01,
        OUTPUT,       DATA_ARR_ABS | NARY,
        USAGE,        PID_LOOP_COUNT,
        LOGICAL_MIN,  0x00,
        LOGICAL_MAX,  0xFF,
        REPORT_SIZE,  0x08,
        REPORT_COUNT, 0x01,
        OUTPUT,       DATA_VAR_ABS,
        END_COLLECTION,
        // ── Block Free (Output, Report ID 0x0B) ──────────────────────────────
        USAGE,      PID_BLOCK_FREE_REPORT,
        COLLECTION, COL_LOGICAL,
        REPORT_ID,    0x0B,
        USAGE,        PID_EFFECT_BLOCK_INDEX,
        LOGICAL_MIN,  0x01,
        LOGICAL_MAX,  0x28,
        REPORT_SIZE,  0x08,
        REPORT_COUNT, 0x01,
        OUTPUT,       DATA_VAR_ABS,
        END_COLLECTION,
        // ── Device Control (Output, Report ID 0x0C) ──────────────────────────
        USAGE,      PID_DEVICE_CONTROL_REPORT,
        COLLECTION, COL_LOGICAL,
        REPORT_ID,    0x0C,
        USAGE,        PID_DEVICE_CONTROL,
        USAGE,        PID_DC_ENABLE_ACTUATORS,
        USAGE,        PID_DC_DISABLE_ACTUATORS,
        USAGE,        PID_DC_STOP_ALL_EFFECTS,
        USAGE,        PID_DC_DEVICE_RESET,
        USAGE,        PID_DC_DEVICE_PAUSE,
        USAGE,        PID_DC_DEVICE_CONTINUE,
        LOGICAL_MIN,  0x01,
        LOGICAL_MAX,  0x06,
        REPORT_SIZE,  0x08,
        REPORT_COUNT, 0x01,
        OUTPUT,       DATA_ARR_ABS | NARY,
        END_COLLECTION,
        // ── Device Gain (Output, Report ID 0x0D) ─────────────────────────────
        USAGE,      PID_DEVICE_GAIN_REPORT,
        COLLECTION, COL_LOGICAL,
        REPORT_ID,    0x0D,
        USAGE,        PID_DEVICE_GAIN,
        LOGICAL_MIN,  0x00,
        LOGICAL_MAX,  0xFF,
        REPORT_SIZE,  0x08,
        REPORT_COUNT, 0x01,
        OUTPUT,       DATA_VAR_ABS,
        END_COLLECTION,
        // ── PID State (Input, Report ID 0x02) ────────────────────────────────
        USAGE,      PID_PID_STATE_REPORT,
        COLLECTION, COL_LOGICAL,
        REPORT_ID,    0x02,
        USAGE,        PID_EFFECT_BLOCK_INDEX,
        LOGICAL_MIN,  0x01,
        LOGICAL_MAX,  0x28,
        REPORT_SIZE,  0x08,
        REPORT_COUNT, 0x01,
        INPUT,        DATA_VAR_ABS,
        USAGE,        PID_EFFECT_PLAYING,
        USAGE,        PID_ACTUATORS_ENABLED,
        USAGE,        PID_PAUSED,
        USAGE,        PID_SAFETY_SWITCH,
        USAGE,        PID_ACTUATOR_POWER,
        LOGICAL_MIN,  0x00,
        LOGICAL_MAX,  0x01,
        REPORT_SIZE,  0x01,
        REPORT_COUNT, 0x05,
        INPUT,        DATA_VAR_ABS,
        // 3 pad bits
        REPORT_SIZE,  0x01,
        REPORT_COUNT, 0x03,
        INPUT,        CONST_VAR_ABS,
        END_COLLECTION,
        END_COLLECTION,   // Application/Joystick
    ]
}

/// The input report declares exactly the joystick's nine buttons: its button
/// block (bytes 34-49 of the descriptor) is the Button usage page, usages 1
/// through 9, one bit each, and a Report Count of 9 — as many bits as there
/// are usages, one per physical button.
pub proof fn lemma_button_block()
    ensures
        descriptor_bytes()[34] == 0x05 && descriptor_bytes()[35] == 0x09,
        descriptor_bytes()[36] == 0x19 && descriptor_bytes()[37] == 1,
        descriptor_bytes()[38] == 0x29 && descriptor_bytes()[39] == BUTTON_COUNT,
        descriptor_bytes()[44] == 0x75 && descriptor_bytes()[45] == 1,
        descriptor_bytes()[46] == 0x95 && descriptor_bytes()[47] == BUTTON_COUNT,
        descriptor_bytes()[48] == 0x81,
        descriptor_bytes()[39] - descriptor_bytes()[37] + 1 == descriptor_bytes()[47],
{
}

/// The HID report descriptor; the driver hands it verbatim to HIDCLASS.
#[verifier::rlimit(40)]
pub fn report_descriptor() -> (d: Vec<u8>)
    ensures
        d@ == descriptor_bytes(),
        d@.len() == REPORT_DESCRIPTOR_LEN,
        d@[0] == USAGE_PAGE && d@[1] == UP_GENERIC_DESKTOP,
        d@.last() == END_COLLECTION,
{
    let d = vec![
        // ── Joystick application collection ─────────────────────────────────────
        USAGE_PAGE, UP_GENERIC_DESKTOP,
        USAGE,      GD_JOYSTICK,
        COLLECTION, COL_APPLICATION,
        // Input report (no report ID — report ID 0)
        // Axes: X, Y, Z (throttle), Rz (rudder) — 16-bit signed, ±32767
        USAGE,        GD_X,
        USAGE,        GD_Y,
        USAGE,        GD_Z,
        USAGE,        GD_RZ,
        LOGICAL_MIN_32, 0x00, 0x80, 0xFF, 0xFF,    // -32768 as i32
        LOGICAL_MAX_32, 0xFF, 0x7F, 0x00, 0x00,    // +32767 as i32
        PHYSICAL_MIN, 0x00,
        PHYSICAL_MAX, 0x00,
        REPORT_SIZE,  0x10,   // 16 bits
        REPORT_COUNT, 0x04,   // 4 axes
        INPUT,        DATA_VAR_ABS,
        // Buttons 1–9 (1-bit each, 7 padding bits)
        USAGE_PAGE,   UP_BUTTON,
        USAGE_MIN,    0x01,
        USAGE_MAX,    0x09,
        LOGICAL_MIN,  0x00,
        LOGICAL_MAX,  0x01,
        REPORT_SIZE,  0x01,
        REPORT_COUNT, 0x09,
        INPUT,        DATA_VAR_ABS,
        // 7 pad bits to complete the byte
        REPORT_SIZE,  0x01,
        REPORT_COUNT, 0x07,
        INPUT,        CONST_VAR_ABS,
        // Hat switch — 4-bit null-capable (0=N..7=NW, 0xF=null)
        USAGE_PAGE,   UP_GENERIC_DESKTOP,
        USAGE,        GD_HAT_SWITCH,
        LOGICAL_MIN,  0x00,
        LOGICAL_MAX,  0x07,
        PHYSICAL_MIN, 0x00,
        PHYSICAL_MAX, 0x08, // 0–315 degrees in 45° steps; OS maps 0xF→null
        REPORT_SIZE,  0x04,
        REPORT_COUNT, 0x01,
        INPUT,        DATA_VAR_ABS,
        // 4 pad bits
        REPORT_SIZE,  0x04,
        REPORT_COUNT, 0x01,
        INPUT,        CONST_VAR_ABS,
        // ── PID force-feedback reports ────────────────────────────────────────────
        USAGE_PAGE, UP_PID,
        // ── Set Effect (Output, Report ID 0x01) ──────────────────────────────
        USAGE,      PID_SET_EFFECT_REPORT,
        COLLECTION, COL_LOGICAL,
        REPORT_ID,    0x01,
        USAGE,        PID_EFFECT_BLOCK_INDEX,
        LOGICAL_MIN,  0x01,
        LOGICAL_MAX,  0x28,   // max 40 effects
        REPORT_SIZE,  0x08,
        REPORT_COUNT, 0x01,
        OUTPUT,       DATA_VAR_ABS,
        USAGE,        PID_PARAM_BLOCK_OFFSET,
        LOGICAL_MIN,  0x00,
        LOGICAL_MAX,  0x7F,
        REPORT_SIZE,  0x08,
        REPORT_COUNT, 0x01,
        OUTPUT,       DATA_VAR_ABS,
        // Effect type nominal array (11 named values + custom)
        USAGE,        PID_EFFECT_TYPE,
        USAGE,        PID_ET_CONSTANT_FORCE,
        USAGE,        PID_ET_RAMP,
        USAGE,        PID_ET_SQUARE,
        USAGE,        PID_ET_SINE,
        USAGE,        PID_ET_TRIANGLE,
        USAGE,        PID_ET_SAWTOOTH_UP,
        USAGE,        PID_ET_SAWTOOTH_DOWN,
        USAGE,        PID_ET_SPRING,
        USAGE,        PID_ET_DAMPER,
        USAGE,        PID_ET_INERTIA,
        USAGE,        PID_ET_FRICTION,
        USAGE,        PID_ET_CUSTOM_FORCE_DATA,
        LOGICAL_MIN,  0x01,
        LOGICAL_MAX,  0x0C,
        REPORT_SIZE,  0x08,
        REPORT_COUNT, 0x01,
        OUTPUT,       DATA_ARR_ABS | NARY,
        // Duration (ms, u16)
        USAGE,        PID_DURATION,
        LOGICAL_MIN,  0x00,
        LOGICAL_MAX_32, 0xFF, 0xFF, 0x00, 0x00,
        REPORT_SIZE,  0x10,
        REPORT_COUNT, 0x01,
        OUTPUT,       DATA_VAR_ABS,
        // Sample period (ms, u16)
        USAGE,        PID_SAMPLE_PERIOD,
        LOGICAL_MIN,  0x00,
        LOGICAL_MAX_32, 0xFF, 0xFF, 0x00, 0x00,
        REPORT_SIZE,  0x10,
        REPORT_COUNT, 0x01,
        OUTPUT,       DATA_VAR_ABS,
        // Gain (u8)
        USAGE,        PID_GAIN,
        LOGICAL_MIN,  0x00,
        LOGICAL_MAX,  0xFF,
        REPORT_SIZE,  0x08,
        REPORT_COUNT, 0x01,
        OUTPUT,       DATA_VAR_ABS,
        // Direction (hundredths of a degree, u16)
        USAGE,        PID_DIRECTION,
        LOGICAL_MIN,  0x00,
        LOGICAL_MAX_32, 0x2F, 0x8C, 0x00, 0x00,  // 35887 (max 359.99°)
        REPORT_SIZE,  0x10,
        REPORT_COUNT, 0x01,
        OUTPUT,       DATA_VAR_ABS,
        // Trigger button (0-based, 0xFF = none)
        USAGE,        PID_TRIGGER_BUTTON,
        LOGICAL_MIN,  0x00,
        LOGICAL_MAX,  0xFF,
        REPORT_SIZE,  0x08,
        REPORT_COUNT, 0x01,
        OUTPUT,       DATA_VAR_ABS,
        // Trigger repeat interval (ms, u16)
        USAGE,        PID_TRIGGER_REPEAT_INTERVAL,
        LOGICAL_MIN,  0x00,
        LOGICAL_MAX_32, 0xFF, 0xFF, 0x00, 0x00,
        REPORT_SIZE,  0x10,
        REPORT_COUNT, 0x01,
        OUTPUT,       DATA_VAR_ABS,
        // Start delay (ms, u16)
        USAGE,        PID_START_DELAY,
        LOGICAL_MIN,  0x00,
        LOGICAL_MAX_32, 0xFF, 0xFF, 0x00, 0x00,
        REPORT_SIZE,  0x10,
        REPORT_COUNT, 0x01,
        OUTPUT,       DATA_VAR_ABS,
        END_COLLECTION,
        // ── Set Envelope (Output, Report ID 0x02) ────────────────────────────
        USAGE,      PID_SET_ENVELOPE_REPORT,
        COLLECTION, COL_LOGICAL,
        REPORT_ID,    0x02,
        USAGE,        PID_EFFECT_BLOCK_INDEX,
        LOGICAL_MIN,  0x01,
        LOGICAL_MAX,  0x28,
        REPORT_SIZE,  0x08,
        REPORT_COUNT, 0x01,
        OUTPUT,       DATA_VAR_ABS,
        USAGE,        PID_ATTACK_LEVEL,
        USAGE,        PID_FADE_LEVEL,
        LOGICAL_MIN,  0x00,
        LOGICAL_MAX_32, 0xFF, 0x7F, 0x00, 0x00,  // 32767
        REPORT_SIZE,  0x10,
        REPORT_COUNT, 0x02,
        OUTPUT,       DATA_VAR_ABS,
        USAGE,        PID_ATTACK_TIME,
        USAGE,        PID_FADE_TIME,
        LOGICAL_MIN,  0x00,
        LOGICAL_MAX_32, 0xFF, 0xFF, 0x00, 0x00,
        REPORT_SIZE,  0x10,
        REPORT_COUNT, 0x02,
        OUTPUT,       DATA_VAR_ABS,
        END_COLLECTION,
        // ── Set Condition (Output, Report ID 0x03) ───────────────────────────
        USAGE,      PID_SET_CONDITION_REPORT,
        COLLECTION, COL_LOGICAL,
        REPORT_ID,    0x03,
        USAGE,        PID_EFFECT_BLOCK_INDEX,
        LOGICAL_MIN,  0x01,
        LOGICAL_MAX,  0x28,
        REPORT_SIZE,  0x08,
        REPORT_COUNT, 0x01,
        OUTPUT,       DATA_VAR_ABS,
        USAGE,        PID_CP_OFFSET,
        USAGE,        PID_POSITIVE_COEFFICIENT,
        USAGE,        PID_NEGATIVE_COEFFICIENT,
        LOGICAL_MIN_32, 0x00, 0x80, 0xFF, 0xFF,    // -32768
        LOGICAL_MAX_32, 0xFF, 0x7F, 0x00, 0x00,    // +32767
        REPORT_SIZE,  0x10,
        REPORT_COUNT, 0x03,
        OUTPUT,       DATA_VAR_ABS,
        USAGE,        PID_POSITIVE_SATURATION,
        USAGE,        PID_NEGATIVE_SATURATION,
        USAGE,        PID_DEAD_BAND,
        LOGICAL_MIN,  0x00,
        LOGICAL_MAX_32, 0xFF, 0x7F, 0x00, 0x00,
        REPORT_SIZE,  0x10,
        REPORT_COUNT, 0x03,
        OUTPUT,       DATA_VAR_ABS,
        END_COLLECTION,
        // ── Set Periodic (Output, Report ID 0x04) ────────────────────────────
        USAGE,      PID_SET_PERIODIC_REPORT,
        COLLECTION, COL_LOGICAL,
        REPORT_ID,    0x04,
        USAGE,        PID_EFFECT_BLOCK_INDEX,
        LOGICAL_MIN,  0x01,
        LOGICAL_MAX,  0x28,
        REPORT_SIZE,  0x08,
        REPORT_COUNT, 0x01,
        OUTPUT,       DATA_VAR_ABS,
        USAGE,        PID_MAGNITUDE,
        USAGE,        PID_OFFSET,
        LOGICAL_MIN_32, 0x00, 0x80, 0xFF, 0xFF,
        LOGICAL_MAX_32, 0xFF, 0x7F, 0x00, 0x00,
        REPORT_SIZE,  0x10,
        REPORT_COUNT, 0x02,
        OUTPUT,       DATA_VAR_ABS,
        USAGE,        PID_PHASE,
        LOGICAL_MIN,  0x00,
        LOGICAL_MAX_32, 0x2F, 0x8C, 0x00, 0x00,  // 35887
        REPORT_SIZE,  0x10,
        REPORT_COUNT, 0x01,
        OUTPUT,       DATA_VAR_ABS,
        USAGE,        PID_PERIOD,
        LOGICAL_MIN,  0x00,
        LOGICAL_MAX_32, 0xFF, 0xFF, 0x00, 0x00,
        REPORT_SIZE,  0x10,
        REPORT_COUNT, 0x01,
        OUTPUT,       DATA_VAR_ABS,
        END_COLLECTION,
        // ── Set Constant Force (Output, Report ID 0x05) ──────────────────────
        USAGE,      PID_SET_CONSTANT_FORCE_REPORT,
        COLLECTION, COL_LOGICAL,
        REPORT_ID,    0x05,
        USAGE,        PID_EFFECT_BLOCK_INDEX,
        LOGICAL_MIN,  0x01,
        LOGICAL_MAX,  0x28,
        REPORT_SIZE,  0x08,
        REPORT_COUNT, 0x01,
        OUTPUT,       DATA_VAR_ABS,
        USAGE,        PID_MAGNITUDE_CF,
        LOGICAL_MIN_32, 0x00, 0x80, 0xFF, 0xFF,
        LOGICAL_MAX_32, 0xFF, 0x7F, 0x00, 0x00,
        REPORT_SIZE,  0x10,
        REPORT_COUNT, 0x01,
        OUTPUT,       DATA_VAR_ABS,
        END_COLLECTION,
        // ── Set Ramp Force (Output, Report ID 0x06) ──────────────────────────
        USAGE,      PID_SET_RAMP_FORCE_REPORT,
        COLLECTION, COL_LOGICAL,
        REPORT_ID,    0x06,
        USAGE,        PID_EFFECT_BLOCK_INDEX,
        LOGICAL_MIN,  0x01,
        LOGICAL_MAX,  0x28,
        REPORT_SIZE,  0x08,
        REPORT_COUNT, 0x01,
        OUTPUT,       DATA_VAR_ABS,
        USAGE,        PID_RAMP_START,
        USAGE,        PID_RAMP_END,
        LOGICAL_MIN_32, 0x00, 0x80, 0xFF, 0xFF,
        LOGICAL_MAX_32, 0xFF, 0x7F, 0x00, 0x00,
        REPORT_SIZE,  0x10,
        REPORT_COUNT, 0x02,
        OUTPUT,       DATA_VAR_ABS,
        END_COLLECTION,
        // ── Effect Operation (Output, Report ID 0x0A) ─────────────────────────
        USAGE,      PID_EFFECT_OPERATION_REPORT,
        COLLECTION, COL_LOGICAL,
        REPORT_ID,    0x0A,
        USAGE,        PID_EFFECT_BLOCK_INDEX,
        LOGICAL_MIN,  0x01,
        LOGICAL_MAX,  0x28,
        REPORT_SIZE,  0x08,
        REPORT_COUNT, 0x01,
        OUTPUT,       DATA_VAR_ABS,
        USAGE,        PID_EFFECT_OPERATION,
        USAGE,        PID_OP_EFFECT_START,
        USAGE,        PID_OP_EFFECT_START_SOLO,
        USAGE,        PID_OP_EFFECT_STOP,
        LOGICAL_MIN,  0x01,
        LOGICAL_MAX,  0x03,
        REPORT_SIZE,  0x08,
        REPORT_COUNT, 0x01,
        OUTPUT,       DATA_ARR_ABS | NARY,
        USAGE,        PID_LOOP_COUNT,
        LOGICAL_MIN,  0x00,
        LOGICAL_MAX,  0xFF,
        REPORT_SIZE,  0x08,
        REPORT_COUNT, 0x01,
        OUTPUT,       DATA_VAR_ABS,
        END_COLLECTION,
        // ── Block Free (Output, Report ID 0x0B) ──────────────────────────────
        USAGE,      PID_BLOCK_FREE_REPORT,
        COLLECTION, COL_LOGICAL,
        REPORT_ID,    0x0B,
        USAGE,        PID_EFFECT_BLOCK_INDEX,
        LOGICAL_MIN,  0x01,
        LOGICAL_MAX,  0x28,
        REPORT_SIZE,  0x08,
        REPORT_COUNT, 0x01,
        OUTPUT,       DATA_VAR_ABS,
        END_COLLECTION,
        // ── Device Control (Output, Report ID 0x0C) ──────────────────────────
        USAGE,      PID_DEVICE_CONTROL_REPORT,
        COLLECTION, COL_LOGICAL,
        REPORT_ID,    0x0C,
        USAGE,        PID_DEVICE_CONTROL,
        USAGE,        PID_DC_ENABLE_ACTUATORS,
        USAGE,        PID_DC_DISABLE_ACTUATORS,
        USAGE,        PID_DC_STOP_ALL_EFFECTS,
        USAGE,        PID_DC_DEVICE_RESET,
        USAGE,        PID_DC_DEVICE_PAUSE,
        USAGE,        PID_DC_DEVICE_CONTINUE,
        LOGICAL_MIN,  0x01,
        LOGICAL_MAX,  0x06,
        REPORT_SIZE,  0x08,
        REPORT_COUNT, 0x01,
        OUTPUT,       DATA_ARR_ABS | NARY,
        END_COLLECTION,
        // ── Device Gain (Output, Report ID 0x0D) ─────────────────────────────
        USAGE,      PID_DEVICE_GAIN_REPORT,
        COLLECTION, COL_LOGICAL,
        REPORT_ID,    0x0D,
        USAGE,        PID_DEVICE_GAIN,
        LOGICAL_MIN,  0x00,
        LOGICAL_MAX,  0xFF,
        REPORT_SIZE,  0x08,
        REPORT_COUNT, 0x01,
        OUTPUT,       DATA_VAR_ABS,
        END_COLLECTION,
        // ── PID State (Input, Report ID 0x02) ────────────────────────────────
        USAGE,      PID_PID_STATE_REPORT,
        COLLECTION, COL_LOGICAL,
        REPORT_ID,    0x02,
        USAGE,        PID_EFFECT_BLOCK_INDEX,
        LOGICAL_MIN,  0x01,
        LOGICAL_MAX,  0x28,
        REPORT_SIZE,  0x08,
        REPORT_COUNT, 0x01,
        INPUT,        DATA_VAR_ABS,
        USAGE,        PID_EFFECT_PLAYING,
        USAGE,        PID_ACTUATORS_ENABLED,
        USAGE,        PID_PAUSED,
        USAGE,        PID_SAFETY_SWITCH,
        USAGE,        PID_ACTUATOR_POWER,
        LOGICAL_MIN,  0x00,
        LOGICAL_MAX,  0x01,
        REPORT_SIZE,  0x01,
        REPORT_COUNT, 0x05,
        INPUT,        DATA_VAR_ABS,
        // 3 pad bits
        REPORT_SIZE,  0x01,
        REPORT_COUNT, 0x03,
        INPUT,        CONST_VAR_ABS,
        END_COLLECTION,
        END_COLLECTION,   // Application/Joystick
    ];
    assert(d@ == descriptor_bytes());
    d
}

// ── HID Class descriptor header ───────────────────────────────────────────────

/// Size of the serialised HID class descriptor.
pub const HID_CLASS_DESCRIPTOR_LEN: usize = 9;

/// The 9-byte HID class descriptor that precedes the report descriptor in the
/// HID descriptor returned by `IOCTL_HID_GET_DEVICE_DESCRIPTOR`.
#[derive(Debug, Clone, Copy, PartialEq, Eq, Structural)]
pub struct HidClassDescriptor {
    /// Total length of the serialised structure.
    pub length: u8,
    /// Descriptor type (0x21 = HID).
    pub descriptor_type: u8,
    /// HID specification release (1.11 → 0x0111).
    pub hid_cd: u16,
    /// Country code (0 = not localised).
    pub country_code: u8,
    /// Number of subordinate descriptors.
    pub num_descriptors: u8,
    /// Type of the first subordinate descriptor (0x22 = Report).
    pub report_descriptor_type: u8,
    /// Length of the report descriptor.
    pub report_descriptor_length: u16,
}

/// The class descriptor of this device: length 9, type HID, release 1.11,
/// not localised, one report descriptor of [`REPORT_DESCRIPTOR_LEN`] bytes.
pub open spec fn class_descriptor() -> HidClassDescriptor {
    HidClassDescriptor {
        length: HID_CLASS_DESCRIPTOR_LEN as u8,
        descriptor_type: 0x21,
        hid_cd: 0x0111,
        country_code: 0,
        num_descriptors: 1,
        report_descriptor_type: 0x22,
        report_descriptor_length: REPORT_DESCRIPTOR_LEN as u16,
    }
}

impl HidClassDescriptor {
    /// Build the HID class descriptor for this device.
    pub fn new() -> (d: Self)
        ensures
            d == class_descriptor(),
    {
        HidClassDescriptor {
            length: 9,
            descriptor_type: 0x21,
            hid_cd: 0x0111,
            country_code: 0,
            num_descriptors: 1,
            report_descriptor_type: 0x22,
            report_descriptor_length: 670,
        }
    }

    /// The wire form handed to HIDCLASS: the fields in order, 16-bit fields
    /// little-endian, no padding.
    pub fn to_bytes(&self) -> (b: [u8; 9])
        ensures
            b@ == seq![
                self.length,
                self.descriptor_type,
                crate::bytes::u16_lo(self.hid_cd),
                crate::bytes::u16_hi(self.hid_cd),
                self.country_code,
                self.num_descriptors,
                self.report_descriptor_type,
                crate::bytes::u16_lo(self.report_descriptor_length),
                crate::bytes::u16_hi(self.report_descriptor_length),
            ],
    {
        let (c0, c1) = crate::bytes::u16_to_le(self.hid_cd);
        let (l0, l1) = crate::bytes::u16_to_le(self.report_descriptor_length);
        let b = [
            self.length,
            self.descriptor_type,
            c0,
            c1,
            self.country_code,
            self.num_descriptors,
            self.report_descriptor_type,
            l0,
            l1,
        ];
        assert(b@ =~= seq![
            self.length,
            self.descriptor_type,
            crate::bytes::u16_lo(self.hid_cd),
            crate::bytes::u16_hi(self.hid_cd),
            self.country_code,
            self.num_descriptors,
            self.report_descriptor_type,
            crate::bytes::u16_lo(self.report_descriptor_length),
            crate::bytes::u16_hi(self.report_descriptor_length),
        ]);
        b
    }
}

impl Default for HidClassDescriptor {
    fn default() -> (d: Self)
        ensures
            d == class_descriptor(),
    {
        Self::new()
    }
}

} // verus!
