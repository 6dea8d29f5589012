use sideblinder::ffb::{
    build_effect_reports, build_operation_report, effect_type_byte, ConditionParams, ConditionType,
    FfbEffect, FfbEffectParams, FfbEnvelope, FfbOperation, Waveform,
};

fn minimal_constant_effect() -> FfbEffect {
    FfbEffect {
        effect_block_index: 1,
        duration_ms: 1000,
        gain: 200,
        direction: 180,
        start_delay_ms: 0,
        trigger_button: None,
        trigger_repeat_ms: 0,
        envelope: None,
        params: FfbEffectParams::ConstantForce { magnitude: 5000 },
    }
}

#[test]
fn operation_report_start() {
    let bytes = build_operation_report(FfbOperation::Start { effect_block_index: 3, solo: false });
    assert_eq!(bytes[0], 0x0A);
    assert_eq!(bytes[1], 3);
    assert_eq!(bytes[2], 0x01);
}

#[test]
fn operation_report_solo_start() {
    let bytes = build_operation_report(FfbOperation::Start { effect_block_index: 1, solo: true });
    assert_eq!(bytes[2], 0x02);
}

#[test]
fn operation_report_set_gain() {
    let bytes = build_operation_report(FfbOperation::SetGain { gain: 128 });
    assert_eq!(bytes[0], 0x0D);
    assert_eq!(bytes[1], 128);
}

#[test]
fn operation_report_enable_actuators_true() {
    let bytes = build_operation_report(FfbOperation::EnableActuators { enable: true });
    assert_eq!(bytes.len(), 2);
    assert_eq!(bytes[0], 0x1A);
    assert_eq!(bytes[1], 0x01);
}

#[test]
fn operation_report_enable_actuators_false() {
    let bytes = build_operation_report(FfbOperation::EnableActuators { enable: false });
    assert_eq!(bytes.len(), 2);
    assert_eq!(bytes[0], 0x1A);
    assert_eq!(bytes[1], 0x02);
}

#[test]
fn constant_force_produces_two_reports() {
    let effect = minimal_constant_effect();
    let reports = build_effect_reports(&effect);
    assert_eq!(reports.len(), 2);
    assert_eq!(reports[0][0], 0x01);
    assert_eq!(reports[0][1], 1);
    assert_eq!(reports[0][2], 0x01);
    assert_eq!(reports[1][0], 0x05);
}

#[test]
fn constant_force_with_envelope_produces_three_reports() {
    let mut effect = minimal_constant_effect();
    effect.envelope = Some(FfbEnvelope { attack_level: 0, attack_time_ms: 200, fade_level: 0, fade_time_ms: 200 });
    let reports = build_effect_reports(&effect);
    assert_eq!(reports.len(), 3);
    assert_eq!(reports[2][0], 0x02);
}

#[test]
fn sine_effect_type_byte() {
    let params = FfbEffectParams::Periodic {
        waveform: Waveform::Sine,
        magnitude: 8000,
        offset: 0,
        period_ms: 200,
        phase: 0,
    };
    assert_eq!(effect_type_byte(&params), 0x04);
}

#[test]
fn spring_condition_produces_two_param_reports() {
    let cond = ConditionParams {
        center_point_offset: 0,
        positive_coefficient: 3000,
        negative_coefficient: 3000,
        positive_saturation: 10000,
        negative_saturation: 10000,
        dead_band: 0,
    };
    let effect = FfbEffect {
        effect_block_index: 2,
        duration_ms: 0xFFFF,
        gain: 255,
        direction: 0,
        start_delay_ms: 0,
        trigger_button: None,
        trigger_repeat_ms: 0,
        envelope: None,
        params: FfbEffectParams::Condition { condition_type: ConditionType::Spring, conditions: [cond, cond] },
    };
    let reports = build_effect_reports(&effect);
    assert_eq!(reports.len(), 3);
    assert_eq!(reports[1][0], 0x03);
    assert_eq!(reports[1][2], 0);
    assert_eq!(reports[2][2], 1);
}

// ── Exact report contents ─────────────────────────────────────────────────────

#[test]
fn set_effect_report_layout() {
    let effect = FfbEffect {
        effect_block_index: 7,
        duration_ms: 0x1234,
        gain: 200,
        direction: 9000,
        start_delay_ms: 0x0102,
        trigger_button: Some(2),
        trigger_repeat_ms: 0x0A0B,
        envelope: None,
        params: FfbEffectParams::Ramp { start: -1, end: 0x0203 },
    };
    let reports = build_effect_reports(&effect);
    assert_eq!(
        reports[0],
        vec![0x01, 7, 0x02, 0x34, 0x12, 0x0B, 0x0A, 0x00, 0x00, 0x02, 0x01, 200, 3, 0x03, 0x01, 0x28, 0x23]
    );
    assert_eq!(reports[1], vec![0x06, 7, 0xFF, 0xFF, 0x03, 0x02]);
    assert_eq!(reports.len(), 2);
}

#[test]
fn no_trigger_button_is_encoded_as_ff() {
    let reports = build_effect_reports(&minimal_constant_effect());
    assert_eq!(reports[0][12], 0xFF);
    assert_eq!(reports[1], vec![0x05, 1, 0x88, 0x13]);
}

#[test]
fn periodic_and_envelope_reports() {
    let effect = FfbEffect {
        effect_block_index: 4,
        duration_ms: 500,
        gain: 128,
        direction: 0,
        start_delay_ms: 0,
        trigger_button: None,
        trigger_repeat_ms: 0,
        envelope: Some(FfbEnvelope { attack_level: 0x0102, attack_time_ms: 0x0304, fade_level: 0x0506, fade_time_ms: 0x0708 }),
        params: FfbEffectParams::Periodic {
            waveform: Waveform::SawtoothDown,
            magnitude: 0x1000,
            offset: -2,
            period_ms: 0x00FA,
            phase: 0x2328,
        },
    };
    let reports = build_effect_reports(&effect);
    assert_eq!(reports.len(), 3);
    assert_eq!(reports[0][2], 0x07);
    assert_eq!(reports[1], vec![0x04, 4, 0x00, 0x10, 0xFE, 0xFF, 0xFA, 0x00, 0x28, 0x23]);
    assert_eq!(reports[2], vec![0x02, 4, 0x02, 0x01, 0x06, 0x05, 0x04, 0x03, 0x08, 0x07]);
}

#[test]
fn custom_force_has_only_set_effect() {
    let mut effect = minimal_constant_effect();
    effect.params = FfbEffectParams::CustomForce { sample_count: 10, sample_period_ms: 5 };
    let reports = build_effect_reports(&effect);
    assert_eq!(reports.len(), 1);
    assert_eq!(reports[0][2], 0x0C);
}

#[test]
fn effect_type_codes_cover_every_kind() {
    let cond = ConditionParams {
        center_point_offset: 0,
        positive_coefficient: 0,
        negative_coefficient: 0,
        positive_saturation: 0,
        negative_saturation: 0,
        dead_band: 0,
    };
    assert_eq!(effect_type_byte(&FfbEffectParams::ConstantForce { magnitude: 0 }), 0x01);
    assert_eq!(effect_type_byte(&FfbEffectParams::Ramp { start: 0, end: 0 }), 0x02);
    let waves = [
        (Waveform::Square, 0x03),
        (Waveform::Sine, 0x04),
        (Waveform::Triangle, 0x05),
        (Waveform::SawtoothUp, 0x06),
        (Waveform::SawtoothDown, 0x07),
    ];
    for (waveform, code) in waves {
        let p = FfbEffectParams::Periodic { waveform, magnitude: 0, offset: 0, period_ms: 0, phase: 0 };
        assert_eq!(effect_type_byte(&p), code);
    }
    let conds = [
        (ConditionType::Spring, 0x08),
        (ConditionType::Damper, 0x09),
        (ConditionType::Inertia, 0x0A),
        (ConditionType::Friction, 0x0B),
    ];
    for (condition_type, code) in conds {
        let p = FfbEffectParams::Condition { condition_type, conditions: [cond, cond] };
        assert_eq!(effect_type_byte(&p), code);
    }
}

#[test]
fn stop_free_and_all_operations() {
    assert_eq!(build_operation_report(FfbOperation::Stop { effect_block_index: 5 }), vec![0x0A, 5, 0x03, 0x00]);
    assert_eq!(build_operation_report(FfbOperation::StopAll), vec![0x0A, 0xFF, 0x03, 0x00]);
    assert_eq!(build_operation_report(FfbOperation::Free { effect_block_index: 5 }), vec![0x0A, 5, 0x00, 0x00]);
    assert_eq!(build_operation_report(FfbOperation::FreeAll), vec![0x0A, 0xFF, 0x00, 0x00]);
    assert_eq!(build_operation_report(FfbOperation::Start { effect_block_index: 3, solo: false }), vec![0x0A, 3, 0x01, 0x01]);
}
