//! Constants of the reverse-engineered HID protocol of the cooler LCD.

use vstd::prelude::*;

verus! {

pub const DEFAULT_VENDOR_ID: u16 = 0x0b05;
pub const DEFAULT_PRODUCT_ID: u16 = 0x1ca9;
pub const DEFAULT_INIT_INTERFACE: i32 = 0;
pub const DEFAULT_BULK_INTERFACE: i32 = 1;
pub const DEFAULT_REFRESH_INTERVAL_MS: u64 = 0;
pub const DEFAULT_ACK_TIMEOUT_MS: i32 = 2000;
pub const DEFAULT_RETRY_DELAY_MS: u64 = 1000;
pub const DEFAULT_RELOAD_CHECK_INTERVAL_MS: u64 = 500;

/// Length of the session packet written to the init interface.
pub const INIT_PACKET_LEN: usize = 440;
/// Length of every HID report written to the bulk interface.
pub const HID_PACKET_LEN: usize = 1024;
/// Bytes of JPEG payload carried by one report after its 4-byte header.
pub const HID_PAYLOAD_LEN: usize = 1020;
/// Length of the acknowledgement the cooler returns after an upload.
pub const ACK_PACKET_LEN: usize = 16;
/// Largest number of reports one synthetic upload may use.
pub const MAX_SYNTHETIC_CHUNKS: usize = 22;
pub const EXPECTED_JPEG_WIDTH: u16 = 320;
pub const EXPECTED_JPEG_HEIGHT: u16 = 320;

/// The acknowledgement bytes observed after every upload burst.
pub open spec fn ack_signature() -> Seq<u8> {
    seq![0x08u8, 0x81, 0, 0, 0, 0, 0, 0, 0, 0, 0, 0, 0, 0, 0, 0]
}

/// The captured init packet: a five-byte prefix followed by zero padding.
pub open spec fn init_packet_spec() -> Seq<u8> {
    Seq::new(
        INIT_PACKET_LEN as nat,
        |i: int|
            if i == 0 {
                0x12u8
            } else if i == 1 {
                0x01u8
            } else if i == 3 {
                0x80u8
            } else if i == 4 {
                0x64u8
            } else {
                0u8
            },
    )
}

/// Builds the 440-byte session packet sent on the init interface.
pub fn init_packet() -> (packet: [u8; 440])
    ensures
        packet@ == init_packet_spec(),
{
    let mut packet = [0u8; 440];
    packet[0] = 0x12;
    packet[1] = 0x01;
    packet[2] = 0x00;
    packet[3] = 0x80;
    packet[4] = 0x64;
    assert(packet@ =~= init_packet_spec());
    packet
}

/// The 16-byte acknowledgement signature.
pub fn ack_signature_bytes() -> (sig: [u8; 16])
    ensures
        sig@ == ack_signature(),
{
    let sig: [u8; 16] = [0x08, 0x81, 0, 0, 0, 0, 0, 0, 0, 0, 0, 0, 0, 0, 0, 0];
    assert(sig@ =~= ack_signature());
    sig
}

} // verus!
