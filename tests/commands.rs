use airpods_aap::commands::{enable_notifications_command, init_command, set_anc_command};
use airpods_aap::decoder::decode_frame;
use airpods_aap::protocol::ANC;
use airpods_aap::session::AAPEvent;

#[test]
fn init_frame_bytes() {
    assert_eq!(
        init_command(),
        vec![0x00, 0x00, 0x04, 0x00, 0x01, 0x00, 0x02, 0x00, 0x00, 0x00, 0x00, 0x00, 0x00, 0x00, 0x00, 0x00]
    );
}

#[test]
fn enable_notifications_frame_bytes() {
    assert_eq!(
        enable_notifications_command(),
        vec![0x04, 0x00, 0x04, 0x00, 0x0F, 0x00, 0xFF, 0xFF, 0xFF, 0xFF]
    );
}

#[test]
fn set_anc_frame_bytes() {
    assert_eq!(
        set_anc_command(ANC::Transparency),
        vec![0x04, 0x00, 0x04, 0x00, 0x09, 0x00, 0x0D, 0x03, 0x00, 0x00, 0x00]
    );
    assert_eq!(set_anc_command(ANC::Off)[7], 0x01);
    assert_eq!(set_anc_command(ANC::NoiseCanceling)[7], 0x02);
    assert_eq!(set_anc_command(ANC::Adaptive)[7], 0x04);
}

#[test]
fn set_anc_frame_reads_back() {
    for mode in [ANC::Off, ANC::NoiseCanceling, ANC::Transparency, ANC::Adaptive] {
        assert_eq!(decode_frame(&set_anc_command(mode)), Some(AAPEvent::ANCChanged(mode)));
    }
}
