use airpods_aap::decoder::decode_frame;
use airpods_aap::protocol::{decode_percentage, BatteryState, ChargingState, ANC};
use airpods_aap::session::{AAPEvent, AAPSocketInner};

#[test]
fn mode_bytes_round_trip() {
    let cases = [
        (1u8, ANC::Off),
        (2u8, ANC::NoiseCanceling),
        (3u8, ANC::Transparency),
        (4u8, ANC::Adaptive),
    ];
    for (b, mode) in cases {
        assert_eq!(ANC::from_u8(b), Some(mode));
        assert_eq!(mode.to_u8(), b);
    }
}

#[test]
fn invalid_mode_bytes_are_rejected() {
    assert_eq!(ANC::from_u8(0), None);
    assert_eq!(ANC::from_u8(5), None);
    assert_eq!(ANC::from_u8(0xFF), None);
}

#[test]
fn charging_bytes_decode() {
    assert_eq!(ChargingState::from_u8(0), ChargingState::Unknown);
    assert_eq!(ChargingState::from_u8(1), ChargingState::Charging);
    assert_eq!(ChargingState::from_u8(2), ChargingState::NotCharging);
    assert_eq!(ChargingState::from_u8(3), ChargingState::Disconnected);
    assert_eq!(ChargingState::from_u8(4), ChargingState::Unknown);
    assert_eq!(ChargingState::from_u8(200), ChargingState::Unknown);
}

#[test]
fn percentage_clamps_and_is_idempotent() {
    assert_eq!(decode_percentage(150), 100);
    assert_eq!(decode_percentage(decode_percentage(150)), 100);
    assert_eq!(decode_percentage(100), 100);
    assert_eq!(decode_percentage(42), 42);
    assert_eq!(decode_percentage(255), 100);
}

#[test]
fn battery_frame_decodes_fresh_state() {
    let frame = [
        0x04, 0x00, 0x04, 0x00, 0x04, 0x00, 0x02, 0x01, 0x01, 80, 1, 0x01, 0x04, 0x01, 50, 0,
        0x01,
    ];
    let mut st = AAPSocketInner::new();
    st.batteries.left = Some((10, ChargingState::Charging));
    let expected = BatteryState {
        single: Some((80, ChargingState::Charging)),
        left: None,
        right: None,
        case: Some((50, ChargingState::Unknown)),
    };
    let ev = st.apply_frame(&frame);
    assert_eq!(ev, Some(AAPEvent::BatteriesChanged(expected)));
    assert_eq!(st.get_batteries(), expected);
}

#[test]
fn battery_entry_fields() {
    let frame = [
        0, 0, 0, 0, 0x04, 0, 0x03, 0x02, 0, 200, 2, 0, 0x03, 0, 7, 9, 0, 0x09, 0, 33, 1, 0,
    ];
    let expected = BatteryState {
        single: None,
        left: Some((7, ChargingState::Unknown)),
        right: Some((100, ChargingState::NotCharging)),
        case: None,
    };
    assert_eq!(decode_frame(&frame), Some(AAPEvent::BatteriesChanged(expected)));
}

#[test]
fn truncated_battery_frame_is_ignored() {
    let frame = [0, 0, 0, 0, 0x04, 0, 0x02, 0x01, 0, 80, 1, 0];
    let mut st = AAPSocketInner::new();
    assert_eq!(st.apply_frame(&frame), None);
    assert_eq!(st.get_batteries(), BatteryState::default());
    assert_eq!(decode_frame(&[0, 0, 0, 0, 0x04, 0]), None);
}

#[test]
fn empty_battery_frame_clears_state() {
    let mut st = AAPSocketInner::new();
    st.batteries.case = Some((90, ChargingState::Charging));
    let ev = st.apply_frame(&[0, 0, 0, 0, 0x04, 0, 0x00]);
    assert_eq!(ev, Some(AAPEvent::BatteriesChanged(BatteryState::default())));
    assert_eq!(st.get_batteries(), BatteryState::default());
}

#[test]
fn short_frames_change_nothing() {
    for len in 0..5usize {
        let frame = vec![0x09u8; len];
        let mut st = AAPSocketInner::new();
        st.set_anc(ANC::Adaptive);
        st.ears_in = (true, false);
        assert_eq!(st.apply_frame(&frame), None);
        assert_eq!(st.get_anc(), ANC::Adaptive);
        assert_eq!(st.get_ears(), (true, false));
        assert_eq!(st.get_batteries(), BatteryState::default());
    }
}

#[test]
fn settings_frame_sets_transparency() {
    let mut st = AAPSocketInner::new();
    let ev = st.apply_frame(&[0x04, 0x00, 0x04, 0x00, 0x09, 0x00, 0x0D, 0x03]);
    assert_eq!(ev, Some(AAPEvent::ANCChanged(ANC::Transparency)));
    assert_eq!(st.get_anc(), ANC::Transparency);
}

#[test]
fn off_report_is_stored_after_adaptive() {
    let mut st = AAPSocketInner::new();
    st.set_anc(ANC::Adaptive);
    let ev = st.apply_frame(&[0, 0, 0, 0, 0x09, 0, 0x0D, 0x01]);
    assert_eq!(ev, Some(AAPEvent::ANCChanged(ANC::Off)));
    assert_eq!(st.get_anc(), ANC::Off);
}

#[test]
fn unknown_mode_byte_decodes_to_off() {
    let mut st = AAPSocketInner::new();
    st.set_anc(ANC::NoiseCanceling);
    let ev = st.apply_frame(&[0, 0, 0, 0, 0x09, 0, 0x0D, 0x07]);
    assert_eq!(ev, Some(AAPEvent::ANCChanged(ANC::Off)));
    assert_eq!(st.get_anc(), ANC::Off);
}

#[test]
fn other_settings_are_ignored() {
    let mut st = AAPSocketInner::new();
    st.set_anc(ANC::Transparency);
    assert_eq!(st.apply_frame(&[0, 0, 0, 0, 0x09, 0, 0x0E, 0x02]), None);
    assert_eq!(st.apply_frame(&[0, 0, 0, 0, 0x09, 0, 0x0D]), None);
    assert_eq!(st.get_anc(), ANC::Transparency);
}

#[test]
fn ear_frame_both_in() {
    let mut st = AAPSocketInner::new();
    let ev = st.apply_frame(&[0, 0, 0, 0, 0x06, 0, 0x00, 0x00]);
    assert_eq!(ev, Some(AAPEvent::EarsChanged((true, true))));
    assert_eq!(st.get_ears(), (true, true));
}

#[test]
fn ear_frame_indicator_order() {
    assert_eq!(
        decode_frame(&[0, 0, 0, 0, 0x06, 0, 0x01, 0x00]),
        Some(AAPEvent::EarsChanged((true, false)))
    );
    assert_eq!(
        decode_frame(&[0, 0, 0, 0, 0x06, 0, 0x00, 0x01]),
        Some(AAPEvent::EarsChanged((false, true)))
    );
    assert_eq!(decode_frame(&[0, 0, 0, 0, 0x06, 0, 0x00]), None);
}

#[test]
fn unknown_category_is_ignored() {
    let mut st = AAPSocketInner::new();
    assert_eq!(st.apply_frame(&[0, 0, 0, 0, 0x2B, 0, 0, 0, 0, 0]), None);
    assert_eq!(st.get_anc(), ANC::Off);
    assert_eq!(st.get_ears(), (false, false));
}

#[test]
fn fresh_state_defaults() {
    let st = AAPSocketInner::new();
    assert_eq!(st.get_anc(), ANC::Off);
    assert_eq!(st.get_ears(), (false, false));
    assert_eq!(st.get_batteries(), BatteryState::default());
    assert_eq!(ChargingState::default(), ChargingState::Unknown);
}
