//! Wire formats: the frames the engine sends and the fields it reads in replies.

use vstd::prelude::*;

verus! {

/// Length of a subcommand frame and of a telemetry report.
pub const REPORT_LEN: usize = 48;

/// Length of a handshake frame.
pub const HANDSHAKE_FRAME_LEN: usize = 64;

/// Report id that opens every outbound subcommand frame.
pub const SUBCOMMAND_REPORT_ID: u8 = 0x01;

/// Report id that opens a reply to a subcommand.
pub const SUBCOMMAND_REPLY_ID: u8 = 0x21;

/// Report id that opens a handshake frame and the attach probe.
pub const HANDSHAKE_REPORT_ID: u8 = 0x80;

/// Leading byte of the device's acknowledgment of the attach probe.
pub const PROBE_ACK: u8 = 0x81;

/// Most payload bytes that fit behind the header of a subcommand frame.
pub const MAX_PAYLOAD: usize = 37;

/// Offset in a reply of the echoed subcommand id.
pub const REPLY_ECHO_OFFSET: usize = 14;

/// Shortest reply buffer in which both matched fields can be read.
pub const MIN_REPLY_LEN: usize = 15;

/// Offset in a flash-read reply of the first data byte.
pub const FLASH_DATA_OFFSET: usize = 20;

/// Most bytes a single flash read may ask for.
pub const MAX_FLASH_READ: u8 = 0x1d;

/// `n` zero bytes.
pub open spec fn zeros(n: nat) -> Seq<u8> {
    Seq::new(n, |i: int| 0u8)
}

/// The rumble placeholder carried by every subcommand frame.
pub open spec fn rumble_neutral() -> Seq<u8> {
    seq![0x00u8, 0x01u8, 0x40u8, 0x40u8, 0x00u8, 0x01u8, 0x40u8, 0x40u8]
}

/// An outbound subcommand frame: report id, sequence number, rumble
/// placeholder, subcommand id, payload, zero padding up to [`REPORT_LEN`].
pub open spec fn subcommand_frame(sequence: u8, sc: u8, payload: Seq<u8>) -> Seq<u8> {
    seq![SUBCOMMAND_REPORT_ID, sequence] + rumble_neutral() + seq![sc] + payload + zeros(
        (MAX_PAYLOAD - payload.len()) as nat,
    )
}

/// A handshake frame: report id, code, zero padding up to [`HANDSHAKE_FRAME_LEN`].
pub open spec fn handshake_frame(code: u8) -> Seq<u8> {
    seq![HANDSHAKE_REPORT_ID, code] + zeros(62)
}

/// The frame that asks an attached device to acknowledge.
pub open spec fn probe_frame() -> Seq<u8> {
    seq![HANDSHAKE_REPORT_ID, 0x01u8]
}

/// The sequence number that follows `sequence`: one more, and 0 after 15.
pub open spec fn next_sequence(sequence: u8) -> u8 {
    if sequence >= 15 {
        0
    } else {
        (sequence + 1) as u8
    }
}

/// Appends zero bytes to `bytes` until it is `len` bytes long.
pub(crate) fn pad_with_zeros(bytes: &mut Vec<u8>, len: usize)
    requires
        old(bytes)@.len() <= len,
    ensures
        final(bytes)@ == old(bytes)@ + zeros((len - old(bytes)@.len()) as nat),
{
    let ghost start = bytes@;
    while bytes.len() < len
        invariant
            start.len() <= bytes@.len() <= len,
            bytes@ == start + zeros((bytes@.len() - start.len()) as nat),
        decreases len - bytes@.len(),
    {
        bytes.push(0u8);
    }
}

/// Appends a copy of `tail` to `bytes`.
pub(crate) fn append_bytes(bytes: &mut Vec<u8>, tail: &[u8])
    ensures
        final(bytes)@ == old(bytes)@ + tail@,
{
    let ghost start = bytes@;
    let mut i: usize = 0;
    while i < tail.len()
        invariant
            i <= tail@.len(),
            bytes@ == start + tail@.subrange(0, i as int),
        decreases tail@.len() - i,
    {
        bytes.push(tail[i]);
        i += 1;
    }
    assert(tail@.subrange(0, i as int) == tail@);
}

/// Builds the subcommand frame for `sc` with `payload` under `sequence`.
pub fn build_subcommand_frame(sequence: u8, sc: u8, payload: &[u8]) -> (frame: Vec<u8>)
    requires
        payload@.len() <= MAX_PAYLOAD,
    ensures
        frame@ == subcommand_frame(sequence, sc, payload@),
        frame@.len() == REPORT_LEN,
{
    let mut frame: Vec<u8> = Vec::new();
    frame.push(SUBCOMMAND_REPORT_ID);
    frame.push(sequence);
    frame.push(0x00);
    frame.push(0x01);
    frame.push(0x40);
    frame.push(0x40);
    frame.push(0x00);
    frame.push(0x01);
    frame.push(0x40);
    frame.push(0x40);
    frame.push(sc);
    assert(frame@ == seq![SUBCOMMAND_REPORT_ID, sequence] + rumble_neutral() + seq![sc]);
    append_bytes(&mut frame, payload);
    pad_with_zeros(&mut frame, REPORT_LEN);
    frame
}

/// Builds the handshake frame that carries `code`.
pub fn build_handshake_frame(code: u8) -> (frame: Vec<u8>)
    ensures
        frame@ == handshake_frame(code),
        frame@.len() == HANDSHAKE_FRAME_LEN,
{
    let mut frame: Vec<u8> = Vec::new();
    frame.push(HANDSHAKE_REPORT_ID);
    frame.push(code);
    assert(frame@ == seq![HANDSHAKE_REPORT_ID, code]);
    pad_with_zeros(&mut frame, HANDSHAKE_FRAME_LEN);
    frame
}

/// Builds the attach probe.
pub fn build_probe_frame() -> (frame: Vec<u8>)
    ensures
        frame@ == probe_frame(),
{
    let mut frame: Vec<u8> = Vec::new();
    frame.push(HANDSHAKE_REPORT_ID);
    frame.push(0x01);
    assert(frame@ == probe_frame());
    frame
}

} // verus!

verus! {

/// Which replies to a subcommand are taken as the answer.
///
/// A reply carries two identifying fields: the report id in its first byte
/// and the echoed subcommand id.
#[derive(Clone, Copy, Debug, PartialEq, Eq, Structural)]
pub enum ReplyPolicy {
    /// A reply is the answer only when both fields match. This is the default.
    RequireBoth,
    /// A reply is the answer as soon as one of the two fields matches.
    AcceptEither,
}

/// The reply opens with the subcommand-reply report id.
pub open spec fn report_id_matches(reply: Seq<u8>) -> bool {
    reply[0] == SUBCOMMAND_REPLY_ID
}

/// The reply echoes subcommand `sc`.
pub open spec fn echo_matches(reply: Seq<u8>, sc: u8) -> bool {
    reply[REPLY_ECHO_OFFSET as int] == sc
}

/// Under `policy`, `reply` is taken as the answer to subcommand `sc`.
pub open spec fn reply_accepted(policy: ReplyPolicy, reply: Seq<u8>, sc: u8) -> bool {
    match policy {
        ReplyPolicy::RequireBoth => report_id_matches(reply) && echo_matches(reply, sc),
        ReplyPolicy::AcceptEither => report_id_matches(reply) || echo_matches(reply, sc),
    }
}

/// Decides whether `reply` is taken as the answer to subcommand `sc`.
pub fn is_reply_accepted(policy: ReplyPolicy, reply: &[u8], sc: u8) -> (accepted: bool)
    requires
        reply@.len() >= MIN_REPLY_LEN,
    ensures
        accepted == reply_accepted(policy, reply@, sc),
{
    let id = reply[0] == SUBCOMMAND_REPLY_ID;
    let echo = reply[REPLY_ECHO_OFFSET] == sc;
    match policy {
        ReplyPolicy::RequireBoth => id && echo,
        ReplyPolicy::AcceptEither => id || echo,
    }
}

/// The unsigned 32-bit value with the same bits as `address`.
pub open spec fn address_bits(address: i32) -> int {
    if address >= 0 {
        address as int
    } else {
        address + 0x1_0000_0000
    }
}

/// The four bytes of `address`, least significant first.
pub open spec fn address_bytes(address: i32) -> Seq<u8> {
    let a = address_bits(address);
    seq![
        (a % 256) as u8,
        (a / 0x100 % 256) as u8,
        (a / 0x1_0000 % 256) as u8,
        (a / 0x100_0000 % 256) as u8,
    ]
}

/// The payload of a flash read: the address in four little-endian bytes, two
/// reserved zero bytes, and the number of bytes asked for.
pub open spec fn flash_read_payload(address: i32, size: u8) -> Seq<u8> {
    address_bytes(address) + seq![0x00u8, 0x00u8, size]
}

/// The data that a flash-read reply carries for a request of `size` bytes:
/// the bytes from [`FLASH_DATA_OFFSET`] on, `size` of them or as many as the
/// reply holds.
pub open spec fn flash_data(reply: Seq<u8>, size: u8) -> Seq<u8> {
    if reply.len() <= FLASH_DATA_OFFSET {
        Seq::empty()
    } else if FLASH_DATA_OFFSET + size <= reply.len() {
        reply.subrange(FLASH_DATA_OFFSET as int, FLASH_DATA_OFFSET + size)
    } else {
        reply.subrange(FLASH_DATA_OFFSET as int, reply.len() as int)
    }
}

/// Builds the payload of a flash read of `size` bytes at `address`.
pub fn build_flash_read_payload(address: i32, size: u8) -> (payload: Vec<u8>)
    ensures
        payload@ == flash_read_payload(address, size),
        payload@.len() == 7,
{
    let bits: u32 = if address >= 0 {
        address as u32
    } else {
        (address as i64 + 0x1_0000_0000) as u32
    };
    let b0: u8 = (bits & 0xFF) as u8;
    let b1: u8 = ((bits >> 8) & 0xFF) as u8;
    let b2: u8 = ((bits >> 16) & 0xFF) as u8;
    let b3: u8 = ((bits >> 24) & 0xFF) as u8;
    assert(bits == address_bits(address));
    assert(b0 == bits % 256 && b1 == bits / 0x100 % 256 && b2 == bits / 0x1_0000 % 256 && b3
        == bits / 0x100_0000 % 256) by (bit_vector)
        requires
            b0 == (bits & 0xFF) as u8,
            b1 == ((bits >> 8) & 0xFF) as u8,
            b2 == ((bits >> 16) & 0xFF) as u8,
            b3 == ((bits >> 24) & 0xFF) as u8,
    ;
    let mut payload: Vec<u8> = Vec::new();
    payload.push(b0);
    payload.push(b1);
    payload.push(b2);
    payload.push(b3);
    payload.push(0x00);
    payload.push(0x00);
    payload.push(size);
    assert(payload@ == flash_read_payload(address, size));
    payload
}

/// Copies out of `reply` the data of a flash read of `size` bytes.
pub fn extract_flash_data(reply: &[u8], size: u8) -> (data: Vec<u8>)
    ensures
        data@ == flash_data(reply@, size),
{
    let mut data: Vec<u8> = Vec::new();
    if reply.len() <= FLASH_DATA_OFFSET {
        return data;
    }
    let end: usize = if reply.len() - FLASH_DATA_OFFSET >= size as usize {
        FLASH_DATA_OFFSET + size as usize
    } else {
        reply.len()
    };
    let mut i: usize = FLASH_DATA_OFFSET;
    while i < end
        invariant
            FLASH_DATA_OFFSET <= i <= end <= reply@.len(),
            data@ == reply@.subrange(FLASH_DATA_OFFSET as int, i as int),
        decreases end - i,
    {
        data.push(reply[i]);
        i += 1;
    }
    data
}

/// Every subcommand frame whose payload fits is [`REPORT_LEN`] bytes long and
/// carries its fields at their fixed offsets.
pub proof fn law_subcommand_frame_layout(sequence: u8, sc: u8, payload: Seq<u8>)
    requires
        payload.len() <= MAX_PAYLOAD,
    ensures
        subcommand_frame(sequence, sc, payload).len() == REPORT_LEN,
        subcommand_frame(sequence, sc, payload)[0] == SUBCOMMAND_REPORT_ID,
        subcommand_frame(sequence, sc, payload)[1] == sequence,
        subcommand_frame(sequence, sc, payload).subrange(2, 10) == rumble_neutral(),
        subcommand_frame(sequence, sc, payload)[10] == sc,
        subcommand_frame(sequence, sc, payload).subrange(11, 11 + payload.len() as int) == payload,
        forall|i: int|
            11 + payload.len() <= i < REPORT_LEN ==> subcommand_frame(sequence, sc, payload)[i]
                == 0,
{
}

/// From a full-length reply a flash read gets exactly the bytes it asked
/// for, as long as they fit behind the data offset; it never gets more than
/// it asked for.
pub proof fn law_flash_data_length(reply: Seq<u8>, size: u8)
    ensures
        flash_data(reply, size).len() <= size,
        FLASH_DATA_OFFSET + size <= reply.len() ==> flash_data(reply, size).len() == size,
        forall|i: int|
            0 <= i < flash_data(reply, size).len() ==> flash_data(reply, size)[i] == reply[
                FLASH_DATA_OFFSET + i],
{
}

} // verus!
