//! BOT frame codec: serialization of the 31-byte Command Block Wrapper and
//! deserialization of the 13-byte Command Status Wrapper, bit-for-bit in the
//! standard Bulk-Only Transport wire layout (little-endian multi-byte fields).

use vstd::prelude::*;
use vstd::bytes::{
    spec_u32_from_le_bytes, spec_u32_to_le_bytes, u32_from_le_bytes, u32_to_le_bytes,
};
use vstd::slice::slice_subrange;

verus! {

/// Signature identifying a Command Block Wrapper, at offset 0 of the frame.
pub const CBW_SIGNATURE: u32 = 0x43425355;

/// Exact size of a serialized Command Block Wrapper.
pub const CBW_SIZE: usize = 31;

/// Minimum (and exact) size of a Command Status Wrapper.
pub const CSW_SIZE: usize = 13;

/// Capacity of the embedded SCSI command block, in bytes.
pub const MAX_COMMAND_LEN: usize = 16;

/// Direction of the data phase that follows a command.
#[derive(Clone, Copy, Debug, PartialEq, Eq, Structural)]
pub enum Direction {
    HostToDevice,
    DeviceToHost,
}

/// Wire encoding of a transfer direction: bit 7 set means device-to-host.
pub open spec fn spec_direction_byte(d: Direction) -> u8 {
    match d {
        Direction::HostToDevice => 0x00,
        Direction::DeviceToHost => 0x80,
    }
}

/// Direction flag byte as transmitted at offset 12 of the CBW.
pub fn direction_byte(d: Direction) -> (r: u8)
    ensures
        r == spec_direction_byte(d),
{
    match d {
        Direction::HostToDevice => 0x00,
        Direction::DeviceToHost => 0x80,
    }
}

/// A framing failure: either the caller handed in an oversized SCSI command,
/// or the device returned fewer bytes than a complete status wrapper.
#[derive(Clone, Copy, Debug, PartialEq, Eq, Structural)]
pub enum FrameError {
    /// The SCSI command block exceeds the 16 bytes a CBW can embed.
    CommandTooLong,
    /// Fewer than 13 bytes were available: no status, not even a partial one.
    Incomplete,
}

/// Request envelope sent host-to-device before every command phase.
#[derive(Clone, Copy, Debug)]
pub struct CommandBlockWrapper {
    pub signature: u32,
    pub transaction_id: u32,
    pub length: u32,
    pub direction: u8,
    pub logical_unit_number: u8,
    pub command_length: u8,
    pub command_data: [u8; 16],
}

/// The fixed 12-byte header of a CBW: signature, tag and data-phase length
/// in little-endian order, then direction flag, LUN and command length.
pub open spec fn spec_cbw_header(
    transaction_id: u32,
    direction: Direction,
    length: u32,
    command_length: u8,
) -> Seq<u8> {
    spec_u32_to_le_bytes(CBW_SIGNATURE) + spec_u32_to_le_bytes(transaction_id)
        + spec_u32_to_le_bytes(length)
        + seq![spec_direction_byte(direction), 0u8, command_length]
}

/// The full 31-byte wire image of a CBW: header, then the SCSI command block
/// zero-padded to 16 bytes.  The logical unit number is always 0.
pub open spec fn spec_cbw_bytes(
    transaction_id: u32,
    direction: Direction,
    length: u32,
    command: Seq<u8>,
) -> Seq<u8>
    recommends
        command.len() <= 16,
{
    spec_cbw_header(transaction_id, direction, length, command.len() as u8) + command
        + Seq::new((16 - command.len()) as nat, |i: int| 0u8)
}

/// Serializes a Command Block Wrapper.  Commands longer than 16 bytes are a
/// caller error and are rejected, never truncated.  On success the buffer is
/// exactly 31 bytes in the standard BOT layout.
pub fn encode_cbw(
    transaction_id: u32,
    direction: Direction,
    length: u32,
    command_block: &[u8],
) -> (r: Result<Vec<u8>, FrameError>)
    ensures
        command_block@.len() <= 16 ==> (r matches Ok(v) && v@ == spec_cbw_bytes(
            transaction_id,
            direction,
            length,
            command_block@,
        )),
        command_block@.len() > 16 ==> r == Err::<Vec<u8>, FrameError>(FrameError::CommandTooLong),
{
    let command_length = command_block.len();
    if command_length > MAX_COMMAND_LEN {
        return Err(FrameError::CommandTooLong);
    }
    let ghost header = spec_cbw_header(
        transaction_id,
        direction,
        length,
        command_block@.len() as u8,
    );
    let mut out: Vec<u8> = u32_to_le_bytes(CBW_SIGNATURE);
    let mut tag_bytes = u32_to_le_bytes(transaction_id);
    out.append(&mut tag_bytes);
    let mut length_bytes = u32_to_le_bytes(length);
    out.append(&mut length_bytes);
    out.push(direction_byte(direction));
    out.push(0u8);
    out.push(command_length as u8);
    assert(out@ =~= header);
    let mut i: usize = 0;
    while i < command_length
        invariant
            i <= command_length,
            command_length == command_block@.len() <= 16,
            out@ == header + command_block@.subrange(0, i as int),
        decreases command_length - i,
    {
        out.push(command_block[i]);
        assert(out@ =~= header + command_block@.subrange(0, i + 1 as int));
        i = i + 1;
    }
    assert(command_block@.subrange(0, command_length as int) =~= command_block@);
    let mut pad: usize = command_length;
    while pad < MAX_COMMAND_LEN
        invariant
            command_length == command_block@.len() <= 16,
            command_length <= pad <= 16,
            out@ == header + command_block@ + Seq::new(
                (pad - command_length) as nat,
                |j: int| 0u8,
            ),
        decreases MAX_COMMAND_LEN - pad,
    {
        out.push(0u8);
        assert(out@ =~= header + command_block@ + Seq::new(
            (pad + 1 - command_length) as nat,
            |j: int| 0u8,
        ));
        pad = pad + 1;
    }
    assert(out@ =~= spec_cbw_bytes(transaction_id, direction, length, command_block@));
    Ok(out)
}

/// Whether a byte sequence is a well-formed 31-byte CBW: correct size,
/// correct signature, embedded command length within the 16-byte block.
pub open spec fn spec_cbw_valid(bytes: Seq<u8>) -> bool {
    &&& bytes.len() == 31
    &&& spec_u32_from_le_bytes(bytes.subrange(0, 4)) == CBW_SIGNATURE
    &&& bytes[14] <= 16
}

/// The transaction tag carried at offset 4 of a CBW.
pub open spec fn spec_cbw_tag(bytes: Seq<u8>) -> u32
    recommends
        spec_cbw_valid(bytes),
{
    spec_u32_from_le_bytes(bytes.subrange(4, 8))
}

/// The data-phase byte count carried at offset 8 of a CBW.
pub open spec fn spec_cbw_length(bytes: Seq<u8>) -> u32
    recommends
        spec_cbw_valid(bytes),
{
    spec_u32_from_le_bytes(bytes.subrange(8, 12))
}

/// The direction flag byte at offset 12 of a CBW.
pub open spec fn spec_cbw_direction(bytes: Seq<u8>) -> u8
    recommends
        spec_cbw_valid(bytes),
{
    bytes[12]
}

/// The embedded SCSI command: the first `command_length` bytes of the
/// 16-byte block starting at offset 15.
pub open spec fn spec_cbw_command(bytes: Seq<u8>) -> Seq<u8>
    recommends
        spec_cbw_valid(bytes),
{
    bytes.subrange(15, 15 + bytes[14] as int)
}

/// Reference decoder for a serialized CBW.  Accepts exactly the well-formed
/// 31-byte frames and recovers every field of the wrapper.
pub fn decode_cbw(bytes: &[u8]) -> (r: Option<CommandBlockWrapper>)
    ensures
        r is Some <==> spec_cbw_valid(bytes@),
        r matches Some(c) ==> {
            &&& c.signature == CBW_SIGNATURE
            &&& c.transaction_id == spec_cbw_tag(bytes@)
            &&& c.length == spec_cbw_length(bytes@)
            &&& c.direction == spec_cbw_direction(bytes@)
            &&& c.logical_unit_number == bytes@[13]
            &&& c.command_length == bytes@[14]
            &&& c.command_data@ == bytes@.subrange(15, 31)
            &&& c.command_data@.subrange(0, c.command_length as int) == spec_cbw_command(bytes@)
        },
{
    if bytes.len() != CBW_SIZE {
        return None;
    }
    let signature = u32_from_le_bytes(slice_subrange(bytes, 0, 4));
    if signature != CBW_SIGNATURE {
        return None;
    }
    let command_length = bytes[14];
    if command_length > 16 {
        return None;
    }
    let mut command_data: [u8; 16] = [0; 16];
    let mut i: usize = 0;
    while i < 16
        invariant
            i <= 16,
            bytes@.len() == 31,
            command_data@.len() == 16,
            forall|j: int| 0 <= j < i ==> command_data@[j] == bytes@[15 + j],
        decreases 16 - i,
    {
        command_data[i] = bytes[15 + i];
        i = i + 1;
    }
    let cbw = CommandBlockWrapper {
        signature,
        transaction_id: u32_from_le_bytes(slice_subrange(bytes, 4, 8)),
        length: u32_from_le_bytes(slice_subrange(bytes, 8, 12)),
        direction: bytes[12],
        logical_unit_number: bytes[13],
        command_length,
        command_data,
    };
    assert(cbw.command_data@ =~= bytes@.subrange(15, 31));
    assert(cbw.command_data@.subrange(0, command_length as int) =~= spec_cbw_command(bytes@));
    Some(cbw)
}

/// Round trip of the codec: any SCSI command of at most 16 bytes, once
/// encoded, is accepted by the reference decoder, and the decoder recovers
/// the same direction, data-phase length, tag and command bytes.
pub proof fn lemma_cbw_round_trip(
    transaction_id: u32,
    direction: Direction,
    length: u32,
    command: Seq<u8>,
)
    requires
        command.len() <= 16,
    ensures
        ({
            let bytes = spec_cbw_bytes(transaction_id, direction, length, command);
            &&& spec_cbw_valid(bytes)
            &&& spec_cbw_tag(bytes) == transaction_id
            &&& spec_cbw_length(bytes) == length
            &&& spec_cbw_direction(bytes) == spec_direction_byte(direction)
            &&& bytes[14] == command.len()
            &&& spec_cbw_command(bytes) == command
        }),
{
    vstd::bytes::lemma_auto_spec_u32_to_from_le_bytes();
    let bytes = spec_cbw_bytes(transaction_id, direction, length, command);
    assert(bytes.len() == 31);
    assert(bytes.subrange(0, 4) =~= spec_u32_to_le_bytes(CBW_SIGNATURE));
    assert(bytes.subrange(4, 8) =~= spec_u32_to_le_bytes(transaction_id));
    assert(bytes.subrange(8, 12) =~= spec_u32_to_le_bytes(length));
    assert(bytes[14] == command.len() as u8);
    assert(spec_cbw_command(bytes) =~= command);
}

/// Outcome reported by the device in the status byte of a CSW.
#[derive(Clone, Copy, Debug, PartialEq, Eq, Structural)]
pub enum CommandStatus {
    Success,
    Error,
    PhaseError,
    Reserved,
}

/// Mapping of the raw CSW status byte: 0 is success, 1 an error, 2 a phase
/// error; every other code is reserved.
pub open spec fn spec_status_from_byte(b: u8) -> CommandStatus {
    if b == 0 {
        CommandStatus::Success
    } else if b == 1 {
        CommandStatus::Error
    } else if b == 2 {
        CommandStatus::PhaseError
    } else {
        CommandStatus::Reserved
    }
}

/// Maps the raw status byte of a CSW to the command outcome it denotes.
pub fn status_from_byte(b: u8) -> (r: CommandStatus)
    ensures
        r == spec_status_from_byte(b),
{
    match b {
        0 => CommandStatus::Success,
        1 => CommandStatus::Error,
        2 => CommandStatus::PhaseError,
        _ => CommandStatus::Reserved,
    }
}

/// Response envelope read from the device after a command and its optional
/// data phase.
#[derive(Clone, Copy, Debug, PartialEq, Eq, Structural)]
pub struct CommandStatusWrapper {
    pub signature: u32,
    pub transaction_id: u32,
    pub residue: u32,
    pub status: CommandStatus,
}

/// The wrapper denoted by a complete (13-byte or longer) CSW buffer: three
/// little-endian fields at offsets 0, 4 and 8, and the status byte at 12.
pub open spec fn spec_decode_csw(bytes: Seq<u8>) -> CommandStatusWrapper
    recommends
        bytes.len() >= 13,
{
    CommandStatusWrapper {
        signature: spec_u32_from_le_bytes(bytes.subrange(0, 4)),
        transaction_id: spec_u32_from_le_bytes(bytes.subrange(4, 8)),
        residue: spec_u32_from_le_bytes(bytes.subrange(8, 12)),
        status: spec_status_from_byte(bytes[12]),
    }
}

/// Deserializes a Command Status Wrapper.  A buffer of fewer than 13 bytes
/// is an incomplete status and is never partially decoded: the result is
/// then `Incomplete`, distinct from any decoded status (in particular from
/// a zero-valued success).  With 13 or more bytes, the three little-endian
/// fields and the status byte are read from the fixed offsets.
pub fn decode_csw(bytes: &[u8]) -> (r: Result<CommandStatusWrapper, FrameError>)
    ensures
        bytes@.len() < 13 ==> r == Err::<CommandStatusWrapper, FrameError>(FrameError::Incomplete),
        bytes@.len() >= 13 ==> r == Ok::<CommandStatusWrapper, FrameError>(spec_decode_csw(bytes@)),
{
    if bytes.len() < CSW_SIZE {
        return Err(FrameError::Incomplete);
    }
    Ok(CommandStatusWrapper {
        signature: u32_from_le_bytes(slice_subrange(bytes, 0, 4)),
        transaction_id: u32_from_le_bytes(slice_subrange(bytes, 4, 8)),
        residue: u32_from_le_bytes(slice_subrange(bytes, 8, 12)),
        status: status_from_byte(bytes[12]),
    })
}

/// Big-endian image of a 32-bit value, as SCSI command fields carry it.
pub open spec fn spec_u32_to_be_bytes(x: u32) -> Seq<u8> {
    seq![
        (x / 0x1000000) as u8,
        ((x / 0x10000) % 0x100) as u8,
        ((x / 0x100) % 0x100) as u8,
        (x % 0x100) as u8,
    ]
}

/// Big-endian image of a 16-bit value.
pub open spec fn spec_u16_to_be_bytes(x: u16) -> Seq<u8> {
    seq![(x / 0x100) as u8, (x % 0x100) as u8]
}

/// The 32-bit value read big-endian from four bytes.
pub open spec fn spec_u32_from_be_bytes(s: Seq<u8>) -> u32
    recommends
        s.len() == 4,
{
    (s[0] as u32 * 0x1000000 + s[1] as u32 * 0x10000 + s[2] as u32 * 0x100 + s[3] as u32) as u32
}

/// Appends the big-endian image of a 32-bit value to a buffer.
pub fn push_u32_be(out: &mut Vec<u8>, x: u32)
    ensures
        final(out)@ == old(out)@ + spec_u32_to_be_bytes(x),
{
    out.push((x / 0x1000000) as u8);
    out.push(((x / 0x10000) % 0x100) as u8);
    out.push(((x / 0x100) % 0x100) as u8);
    out.push((x % 0x100) as u8);
    assert(out@ =~= old(out)@ + spec_u32_to_be_bytes(x));
}

/// Appends the big-endian image of a 16-bit value to a buffer.
pub fn push_u16_be(out: &mut Vec<u8>, x: u16)
    ensures
        final(out)@ == old(out)@ + spec_u16_to_be_bytes(x),
{
    out.push((x / 0x100) as u8);
    out.push((x % 0x100) as u8);
    assert(out@ =~= old(out)@ + spec_u16_to_be_bytes(x));
}

/// Reads a 32-bit big-endian value from four bytes at the given offset.
pub fn u32_from_be_at(bytes: &[u8], at: usize) -> (r: u32)
    requires
        at + 4 <= bytes@.len(),
    ensures
        r == spec_u32_from_be_bytes(bytes@.subrange(at as int, at + 4)),
{
    let b0 = bytes[at] as u32;
    let b1 = bytes[at + 1] as u32;
    let b2 = bytes[at + 2] as u32;
    let b3 = bytes[at + 3] as u32;
    b0 * 0x1000000 + b1 * 0x10000 + b2 * 0x100 + b3
}

} // verus!
