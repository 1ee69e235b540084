//! Wire format of the HTIF mailbox words.
//!
//! A request word holds a device number in bits 63-56, a command number in
//! bits 55-48 and a payload in bits 47-0. A response word carries the
//! character read from the host console in its low 8 bits.
use vstd::prelude::*;

verus! {

/// Bits 63-56 of a request word hold the device number.
pub const DEVICE_SHIFT: u64 = 56;

/// Device 1 is the blocking character device.
pub const DEVICE_CHARIO: u64 = 1;

/// Bits 55-48 of a request word hold the command number.
pub const COMMAND_SHIFT: u64 = 48;

/// Read a character from the host console.
pub const COMMAND_READ_CHAR: u64 = 0;

/// Write a character to the host console.
pub const COMMAND_WRITE_CHAR: u64 = 1;

/// The request word built from its three fields.
pub open spec fn request_word(device: u64, command: u64, payload: u64) -> u64 {
    (device << 56u64) | (command << 48u64) | payload
}

/// The device field of a request word.
pub open spec fn device_of(word: u64) -> u64 {
    word >> 56u64
}

/// The command field of a request word.
pub open spec fn command_of(word: u64) -> u64 {
    (word >> 48u64) & 0xffu64
}

/// The payload field of a request word.
pub open spec fn payload_of(word: u64) -> u64 {
    word & 0xffff_ffff_ffffu64
}

/// The character that a response word carries.
pub open spec fn char_of(word: u64) -> u8 {
    (word % 256) as u8
}

/// The request that asks the console to print `byte`.
pub open spec fn write_char_request(byte: u8) -> u64 {
    request_word(DEVICE_CHARIO, COMMAND_WRITE_CHAR, byte as u64)
}

/// The request that asks the console for one character.
pub open spec fn read_char_request() -> u64 {
    request_word(DEVICE_CHARIO, COMMAND_READ_CHAR, 0)
}

/// Builds the request word that sends `byte` to the host console.
pub fn encode_write_char(byte: u8) -> (r: u64)
    ensures
        r == write_char_request(byte),
        r == 0x0101_0000_0000_0000u64 | (byte as u64),
        device_of(r) == DEVICE_CHARIO,
        command_of(r) == COMMAND_WRITE_CHAR,
        payload_of(r) == byte as u64,
{
    let device = DEVICE_CHARIO << DEVICE_SHIFT;
    let command = COMMAND_WRITE_CHAR << COMMAND_SHIFT;
    let payload = (byte as u64) & 0xff;
    let b = byte as u64;
    assert(b & 0xffu64 == b && device == 0x0100_0000_0000_0000u64 && command
        == 0x0001_0000_0000_0000u64) by (bit_vector)
        requires
            b < 256,
            device == 1u64 << 56u64,
            command == 1u64 << 48u64,
    ;
    let r = device | command | payload;
    assert(r >> 56u64 == 1u64 && (r >> 48u64) & 0xffu64 == 1u64 && r & 0xffff_ffff_ffffu64 == b
        && r == (1u64 << 56u64) | (1u64 << 48u64) | b && r == 0x0101_0000_0000_0000u64 | b)
        by (bit_vector)
        requires
            b < 256,
            r == 0x0100_0000_0000_0000u64 | 0x0001_0000_0000_0000u64 | b,
    ;
    r
}

/// Builds the request word that asks the host console for one character.
pub fn encode_read_char() -> (r: u64)
    ensures
        r == read_char_request(),
        r == 0x0100_0000_0000_0000u64,
        device_of(r) == DEVICE_CHARIO,
        command_of(r) == COMMAND_READ_CHAR,
        payload_of(r) == 0,
{
    let device = DEVICE_CHARIO << DEVICE_SHIFT;
    let command = COMMAND_READ_CHAR << COMMAND_SHIFT;
    let r = device | command;
    assert(r == 0x0100_0000_0000_0000u64 && r >> 56u64 == 1u64 && (r >> 48u64) & 0xffu64 == 0u64
        && r & 0xffff_ffff_ffffu64 == 0u64 && r == (1u64 << 56u64) | (0u64 << 48u64) | 0u64)
        by (bit_vector)
        requires
            r == (1u64 << 56u64) | (0u64 << 48u64),
    ;
    r
}

/// Takes the character out of a response word; bits 63-8 are ignored.
pub fn decode_char(word: u64) -> (r: u8)
    ensures
        r == char_of(word),
{
    let low = word & 0xff;
    assert(word & 0xffu64 == word % 256) by (bit_vector);
    low as u8
}

/// Only the low 8 bits of a response word decide the character: two words
/// that agree there carry the same character, whatever bits 63-8 hold.
pub proof fn char_ignores_high_bits(a: u64, b: u64)
    requires
        a & 0xffu64 == b & 0xffu64,
    ensures
        char_of(a) == char_of(b),
{
    assert(a % 256 == b % 256) by (bit_vector)
        requires
            a & 0xffu64 == b & 0xffu64,
    ;
}

} // verus!
