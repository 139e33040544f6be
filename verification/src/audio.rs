//! Command frames for a serial audio player module.
//!
//! A command travels as ten bytes: a start byte, a version byte, a length
//! byte, the command, a feedback flag, the parameter with its high byte
//! first, a checksum with its high byte first, and an end byte. The checksum
//! is the 16-bit number that brings the sum of the six bytes between the
//! start byte and itself to zero.

use vstd::prelude::*;

verus! {

/// First byte of every frame.
pub const FRAME_START: u8 = 0x7E;

/// Protocol version, the second byte of every frame.
pub const FRAME_VERSION: u8 = 0xFF;

/// Number of bytes that the checksum covers, the third byte of every frame.
pub const FRAME_LENGTH: u8 = 0x06;

/// Fifth byte of every frame: no reply is asked for.
pub const FRAME_NO_FEEDBACK: u8 = 0x00;

/// Last byte of every frame.
pub const FRAME_END: u8 = 0xEF;

/// Command that resets the module.
pub const CMD_RESET: u8 = 0x0C;

/// Command that plays the track whose number is the parameter.
pub const CMD_PLAY_TRACK: u8 = 0x03;

/// Command that sets the volume to the parameter, from 0 to 30.
pub const CMD_SET_VOLUME: u8 = 0x06;

/// The sum of the bytes that the checksum covers.
pub open spec fn covered_sum(command: u8, param: u16) -> int {
    FRAME_VERSION + FRAME_LENGTH + command + FRAME_NO_FEEDBACK + param / 256 + param % 256
}

/// The checksum of a frame: what is missing from the covered sum to the
/// next multiple of 65536.
pub open spec fn checksum(command: u8, param: u16) -> int {
    0x1_0000 - covered_sum(command, param)
}

/// The ten bytes of the frame for `command` with `param`.
pub open spec fn frame_bytes(command: u8, param: u16) -> Seq<u8> {
    seq![
        FRAME_START,
        FRAME_VERSION,
        FRAME_LENGTH,
        command,
        FRAME_NO_FEEDBACK,
        (param / 256) as u8,
        (param % 256) as u8,
        (checksum(command, param) / 256) as u8,
        (checksum(command, param) % 256) as u8,
        FRAME_END,
    ]
}

/// Builds the frame that carries `command` with `param`.
pub fn command_frame(command: u8, param: u16) -> (frame: [u8; 10])
    ensures
        frame@ == frame_bytes(command, param),
{
    let param_high: u8 = (param >> 8) as u8;
    let param_low: u8 = (param & 0xFF) as u8;
    assert(param >> 8 == param / 256 && param & 0xFF == param % 256) by (bit_vector);
    let sum: u16 = (FRAME_VERSION as u16).wrapping_add(FRAME_LENGTH as u16).wrapping_add(
        command as u16,
    ).wrapping_add(FRAME_NO_FEEDBACK as u16).wrapping_add(param_high as u16).wrapping_add(
        param_low as u16,
    );
    let check: u16 = 0u16.wrapping_sub(sum);
    assert(check >> 8 == check / 256 && check & 0xFF == check % 256) by (bit_vector);
    let frame = [
        FRAME_START,
        FRAME_VERSION,
        FRAME_LENGTH,
        command,
        FRAME_NO_FEEDBACK,
        param_high,
        param_low,
        (check >> 8) as u8,
        (check & 0xFF) as u8,
        FRAME_END,
    ];
    assert(frame@ =~= frame_bytes(command, param));
    frame
}

/// In every frame, the two checksum bytes hold a 16-bit number that brings
/// the sum of the covered bytes to a multiple of 65536.
pub proof fn lemma_checksum_closes(command: u8, param: u16)
    ensures
        0 < checksum(command, param) < 0x1_0000,
        (covered_sum(command, param) + checksum(command, param)) % 0x1_0000 == 0,
        frame_bytes(command, param)[7] * 256 + frame_bytes(command, param)[8] == checksum(
            command,
            param,
        ),
{
}

/// No other 16-bit number does.
pub proof fn lemma_checksum_unique(command: u8, param: u16, other: int)
    requires
        0 <= other < 0x1_0000,
        (covered_sum(command, param) + other) % 0x1_0000 == 0,
    ensures
        other == checksum(command, param),
{
}

} // verus!
