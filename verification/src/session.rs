//! Command session: the per-command phase discipline of the Bulk-Only
//! Transport state machine (command phase, optional data phase, status
//! phase), and the SCSI command subset the transfer engines issue: TEST
//! UNIT READY, READ CAPACITY, READ(10) and WRITE(10).
//!
//! The session never touches the bus itself.  It hands the caller the exact
//! bytes to write and interprets the byte counts and buffers the transport
//! reports back, so that every decision around the unverified transfer
//! primitives is verified.

use vstd::prelude::*;
use crate::codec::{
    spec_cbw_bytes, spec_decode_csw, spec_u16_to_be_bytes, spec_u32_from_be_bytes,
    spec_u32_to_be_bytes, CommandStatus, CommandStatusWrapper, Direction, FrameError, encode_cbw,
    decode_csw, push_u16_be, push_u32_be, u32_from_be_at, CBW_SIZE,
};

verus! {

/// Where a session stands inside one command exchange.  A new command may
/// only be issued from `Idle`: the engine does not pipeline commands, and a
/// status must be consumed (or the exchange abandoned) first.
#[derive(Clone, Copy, Debug, PartialEq, Eq, Structural)]
pub enum Phase {
    /// No exchange in flight.
    Idle,
    /// A CBW has been produced and awaits its write confirmation.
    CommandPending { direction: Direction, data_bytes: u32 },
    /// The CBW went out in full and a data phase of `data_bytes` bytes is owed.
    DataPhase { direction: Direction, data_bytes: u32 },
    /// Command and data phases are done; the CSW is owed.
    StatusPhase,
}

/// One device's command session: its two bulk endpoint addresses, the
/// claimed interface, and the phase of the exchange in flight.
#[derive(Clone, Copy, Debug)]
pub struct Session {
    /// Endpoint the host writes to (commands and outgoing data).
    pub in_endpoint: u8,
    /// Endpoint the host reads from (incoming data and status).
    pub out_endpoint: u8,
    /// The claimed interface number.
    pub interface: u8,
    /// Phase of the exchange in flight.
    pub phase: Phase,
}

impl Session {
    /// The session still addresses the same device: endpoints and interface
    /// are untouched by phase transitions.
    pub open spec fn same_device(self, other: Session) -> bool {
        &&& self.in_endpoint == other.in_endpoint
        &&& self.out_endpoint == other.out_endpoint
        &&& self.interface == other.interface
    }

    /// A fresh session for a device whose endpoints have been resolved from
    /// its interface descriptors.  It starts idle.
    pub fn new(in_endpoint: u8, out_endpoint: u8, interface: u8) -> (r: Session)
        ensures
            r.in_endpoint == in_endpoint,
            r.out_endpoint == out_endpoint,
            r.interface == interface,
            r.phase == Phase::Idle,
    {
        Session { in_endpoint, out_endpoint, interface, phase: Phase::Idle }
    }

    /// Opens a command exchange: encodes the CBW for the given SCSI command
    /// block, direction and expected data-phase size (transaction tag 0).
    /// The returned bytes are to be written to `in_endpoint` in one bulk
    /// transfer.  An oversized command block is rejected and the session
    /// stays idle.
    pub fn send_command(
        &mut self,
        command_block: &[u8],
        direction: Direction,
        outcoming_bytes: u32,
    ) -> (r: Result<Vec<u8>, FrameError>)
        requires
            old(self).phase == Phase::Idle,
        ensures
            final(self).same_device(*old(self)),
            command_block@.len() > 16 ==> r == Err::<Vec<u8>, FrameError>(
                FrameError::CommandTooLong,
            ) && final(self).phase == Phase::Idle,
            command_block@.len() <= 16 ==> (r matches Ok(v) && v@ == spec_cbw_bytes(
                0,
                direction,
                outcoming_bytes,
                command_block@,
            ) && final(self).phase == (Phase::CommandPending {
                direction,
                data_bytes: outcoming_bytes,
            })),
    {
        let cbw = encode_cbw(0, direction, outcoming_bytes, command_block)?;
        self.phase = Phase::CommandPending { direction, data_bytes: outcoming_bytes };
        Ok(cbw)
    }

    /// Consumes the transport's report of how many CBW bytes went out.  The
    /// command counts as sent only if all 31 bytes were written; a short
    /// write abandons the exchange.  On a full write the session moves to
    /// the data phase, or straight to the status phase when no data phase
    /// was announced.
    pub fn command_sent(&mut self, bytes_written: usize) -> (r: bool)
        requires
            old(self).phase matches Phase::CommandPending { .. },
        ensures
            final(self).same_device(*old(self)),
            r == (bytes_written == 31),
            !r ==> final(self).phase == Phase::Idle,
            old(self).phase matches Phase::CommandPending { direction, data_bytes } ==> {
                &&& (r && data_bytes == 0) ==> final(self).phase == Phase::StatusPhase
                &&& (r && data_bytes > 0) ==> final(self).phase == (Phase::DataPhase {
                    direction,
                    data_bytes,
                })
            },
    {
        if bytes_written != CBW_SIZE {
            self.phase = Phase::Idle;
            return false;
        }
        match self.phase {
            Phase::CommandPending { direction, data_bytes } => {
                if data_bytes == 0 {
                    self.phase = Phase::StatusPhase;
                } else {
                    self.phase = Phase::DataPhase { direction, data_bytes };
                }
            },
            _ => {},
        }
        true
    }

    /// Records that the single bulk transfer of the data phase has been
    /// attempted (transport shortfalls are the caller's to judge); the
    /// status phase is owed next.
    pub fn data_transferred(&mut self)
        requires
            old(self).phase matches Phase::DataPhase { .. },
        ensures
            final(self).same_device(*old(self)),
            final(self).phase == Phase::StatusPhase,
    {
        self.phase = Phase::StatusPhase;
    }

    /// Abandons the exchange in flight, returning the session to idle.  Used
    /// after an unrecoverable shortfall, when the remaining phases will not
    /// be driven.
    pub fn reset(&mut self)
        ensures
            final(self).same_device(*old(self)),
            final(self).phase == Phase::Idle,
    {
        self.phase = Phase::Idle;
    }

    /// Consumes the status phase from the bytes the transport returned.  A
    /// short read (fewer than the 13 CSW bytes) yields `Incomplete`, never a
    /// crafted status.  Either way the exchange is over and the session is
    /// idle again.
    pub fn status(&mut self, csw_bytes: &[u8]) -> (r: Result<CommandStatusWrapper, FrameError>)
        requires
            old(self).phase == Phase::StatusPhase,
        ensures
            final(self).same_device(*old(self)),
            final(self).phase == Phase::Idle,
            csw_bytes@.len() < 13 ==> r == Err::<CommandStatusWrapper, FrameError>(
                FrameError::Incomplete,
            ),
            csw_bytes@.len() >= 13 ==> r == Ok::<CommandStatusWrapper, FrameError>(
                spec_decode_csw(csw_bytes@),
            ),
    {
        self.phase = Phase::Idle;
        decode_csw(csw_bytes)
    }
}

/// The 6-byte TEST UNIT READY command: opcode 0, all fields zero.
pub open spec fn spec_test_unit_ready_cdb() -> Seq<u8> {
    Seq::new(6, |i: int| 0u8)
}

/// Builds the TEST UNIT READY command block.
pub fn test_unit_ready_cdb() -> (r: Vec<u8>)
    ensures
        r@ == spec_test_unit_ready_cdb(),
{
    let mut out: Vec<u8> = Vec::new();
    out.push(0);
    out.push(0);
    out.push(0);
    out.push(0);
    out.push(0);
    out.push(0);
    assert(out@ =~= spec_test_unit_ready_cdb());
    out
}

/// The 10-byte READ CAPACITY command: opcode 0x25, all other fields zero.
pub open spec fn spec_read_capacity_cdb() -> Seq<u8> {
    Seq::new(10, |i: int| if i == 0 { 0x25u8 } else { 0u8 })
}

/// Builds the READ CAPACITY command block.  Its data phase answers with 8
/// bytes, decoded by [`decode_capacity`].
pub fn read_capacity_cdb() -> (r: Vec<u8>)
    ensures
        r@ == spec_read_capacity_cdb(),
{
    let mut out: Vec<u8> = Vec::new();
    out.push(0x25);
    let mut i: usize = 0;
    while i < 9
        invariant
            i <= 9,
            out@.len() == i + 1,
            out@[0] == 0x25u8,
            forall|j: int| 1 <= j < out@.len() ==> out@[j] == 0u8,
        decreases 9 - i,
    {
        out.push(0);
        i = i + 1;
    }
    assert(out@ =~= spec_read_capacity_cdb());
    out
}

/// The READ(10) / WRITE(10) opcode for a transfer in the given direction:
/// reading pulls data to the host, writing pushes it to the device.
pub open spec fn spec_transfer_opcode(direction: Direction) -> u8 {
    match direction {
        Direction::HostToDevice => 0x2A,
        Direction::DeviceToHost => 0x28,
    }
}

/// The 10-byte READ(10) / WRITE(10) command block: opcode, big-endian
/// 32-bit start LBA at bytes 2 to 5, big-endian 16-bit sector count at
/// bytes 7 and 8, all other bytes zero.
pub open spec fn spec_transfer_cdb(direction: Direction, start_sector: u32, count: u16) -> Seq<u8> {
    seq![spec_transfer_opcode(direction), 0u8] + spec_u32_to_be_bytes(start_sector) + seq![0u8]
        + spec_u16_to_be_bytes(count) + seq![0u8]
}

/// Builds the READ(10) or WRITE(10) command block for `count` sectors
/// starting at `start_sector`.
pub fn transfer_cdb(direction: Direction, start_sector: u32, count: u16) -> (r: Vec<u8>)
    ensures
        r@ == spec_transfer_cdb(direction, start_sector, count),
        r@.len() == 10,
{
    let mut out: Vec<u8> = Vec::new();
    match direction {
        Direction::HostToDevice => out.push(0x2A),
        Direction::DeviceToHost => out.push(0x28),
    }
    out.push(0);
    push_u32_be(&mut out, start_sector);
    out.push(0);
    push_u16_be(&mut out, count);
    out.push(0);
    assert(out@ =~= spec_transfer_cdb(direction, start_sector, count));
    out
}

/// Bytes moved by a transfer of `count` sectors: the data-phase size
/// announced in the CBW of a READ(10) or WRITE(10).
pub fn transfer_length(count: u16) -> (r: u32)
    ensures
        r == count * 512,
{
    (count as u32) * 512
}

/// Builds the READ(10) command for filling a buffer of `data_len` bytes
/// starting at `start_sector`.  The buffer must be sector-aligned, and its
/// sector count must fit the 16-bit transfer-count field.
pub fn storage_read_cdb(data_len: usize, start_sector: u32) -> (r: Vec<u8>)
    requires
        data_len % 512 == 0,
        data_len / 512 <= 0xFFFF,
    ensures
        r@ == spec_transfer_cdb(Direction::DeviceToHost, start_sector, (data_len / 512) as u16),
{
    transfer_cdb(Direction::DeviceToHost, start_sector, (data_len / 512) as u16)
}

/// Builds the WRITE(10) command for sending a buffer of `data_len` bytes
/// starting at `start_sector`.  The buffer must be sector-aligned, and its
/// sector count must fit the 16-bit transfer-count field.
pub fn storage_write_cdb(data_len: usize, start_sector: u32) -> (r: Vec<u8>)
    requires
        data_len % 512 == 0,
        data_len / 512 <= 0xFFFF,
    ensures
        r@ == spec_transfer_cdb(Direction::HostToDevice, start_sector, (data_len / 512) as u16),
{
    transfer_cdb(Direction::HostToDevice, start_sector, (data_len / 512) as u16)
}

/// Decodes the 8-byte READ CAPACITY answer: the device's sector count and
/// its sector size, both big-endian.  A short data phase (fewer than 8
/// bytes) is reported as nothing, never partially decoded.
pub fn decode_capacity(data: &[u8]) -> (r: Option<(u32, u32)>)
    ensures
        data@.len() < 8 ==> r is None,
        data@.len() >= 8 ==> r == Some::<(u32, u32)>(
            (
                spec_u32_from_be_bytes(data@.subrange(0, 4)),
                spec_u32_from_be_bytes(data@.subrange(4, 8)),
            ),
        ),
{
    if data.len() < 8 {
        return None;
    }
    Some((u32_from_be_at(data, 0), u32_from_be_at(data, 4)))
}

/// The TEST UNIT READY outcome: the device is ready only when a status was
/// read at all and it reports success.  An unreadable status counts as not
/// ready, never as an error.
pub fn ready_from_status(status: Option<CommandStatus>) -> (r: bool)
    ensures
        r == (status matches Some(CommandStatus::Success)),
{
    match status {
        Some(CommandStatus::Success) => true,
        _ => false,
    }
}

} // verus!
