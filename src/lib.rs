//! Session core for a paired wireless-earbud accessory: wire types, frame
//! decoding into session state, command frames, a bounded event bus and the
//! receive loop's state machine.
pub mod protocol;
pub mod session;
pub mod decoder;
pub mod commands;
pub mod bus;
pub mod read_loop;
