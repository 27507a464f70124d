//! Outbound command frames.
use vstd::prelude::*;
use crate::decoder::decode_spec;
use crate::protocol::ANC;
use crate::session::AAPEvent;

verus! {

/// The handshake frame sent once right after the connection is made.
pub open spec fn init_frame() -> Seq<u8> {
    seq![0x00, 0x00, 0x04, 0x00, 0x01, 0x00, 0x02, 0x00, 0x00, 0x00, 0x00, 0x00, 0x00, 0x00, 0x00, 0x00]
}

/// The frame that asks the device to stream status notifications.
pub open spec fn enable_notifications_frame() -> Seq<u8> {
    seq![0x04, 0x00, 0x04, 0x00, 0x0F, 0x00, 0xFF, 0xFF, 0xFF, 0xFF]
}

/// The frame that asks the device to switch to noise-control mode `anc`.
pub open spec fn set_anc_frame(anc: ANC) -> Seq<u8> {
    seq![0x04, 0x00, 0x04, 0x00, 0x09, 0x00, 0x0D, anc.wire(), 0x00, 0x00, 0x00]
}

/// Builds the handshake frame.
pub fn init_command() -> (r: Vec<u8>)
    ensures
        r@ == init_frame(),
{
    let r: Vec<u8> = vec![0x00, 0x00, 0x04, 0x00, 0x01, 0x00, 0x02, 0x00, 0x00, 0x00, 0x00, 0x00, 0x00, 0x00, 0x00, 0x00];
    assert(r@ =~= init_frame());
    r
}

/// Builds the frame that enables status notifications.
pub fn enable_notifications_command() -> (r: Vec<u8>)
    ensures
        r@ == enable_notifications_frame(),
{
    let r: Vec<u8> = vec![0x04, 0x00, 0x04, 0x00, 0x0f, 0x00, 0xff, 0xff, 0xff, 0xff];
    assert(r@ =~= enable_notifications_frame());
    r
}

/// Builds the frame that sets the noise-control mode.
pub fn set_anc_command(anc: ANC) -> (r: Vec<u8>)
    ensures
        r@ == set_anc_frame(anc),
{
    let r: Vec<u8> = vec![0x04, 0x00, 0x04, 0x00, 0x09, 0x00, 0x0D, anc.to_u8(), 0x00, 0x00, 0x00];
    assert(r@ =~= set_anc_frame(anc));
    r
}

/// A mode-change frame, read back as an inbound frame, reports the mode it asks for.
pub proof fn lemma_set_anc_frame_decodes(anc: ANC)
    ensures
        decode_spec(set_anc_frame(anc)) == Some(AAPEvent::ANCChanged(anc)),
{
}

} // verus!
