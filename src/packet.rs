//! Framing of commands and responses on the wire:
//! `[length, address, operation, ...payload, crc_lo, crc_hi]`, where `length`
//! counts the bytes that follow it and the checksum covers every byte before it.
use crate::crc::{calculate_crc, mcrf4xx};
use crate::error::{fails_with, program_error, Error, Result};
use crate::status::{lemma_status_code_round_trip, status_from_code, ResponseStatus};
use vstd::prelude::*;

verus! {

/// The largest payload that a length byte can announce.
pub const MAX_PAYLOAD: usize = 251;

/// An operation that the reader can be asked to perform.
#[derive(Debug, Clone, Copy, PartialEq, Eq, Structural)]
pub enum CommandType {
    // EPC C1 G2 (ISO 18000-6C) commands
    Inventory,
    ReadData,
    WriteData,
    WriteEPC,
    KillTag,
    Lock,
    BlockErase,
    ReadProtect,
    ReadProtectWithoutEPC,
    ResetReadProtect,
    CheckReadProtect,
    EASAlarm,
    CheckEASAlarm,
    BlockLock,
    InventorySingle,
    BlockWrite,
    // ISO 18000-6B commands
    InventorySignal6B,
    InventoryMultiple6B,
    ReadData6B,
    WriteData6B,
    CheckLock6B,
    Lock6B,
    // Reader commands
    GetReaderInformation,
    SetRegion,
    SetAddress,
    SetScanTime,
    SetBaudRate,
    SetPower,
    AcoustoOpticControl,
}

/// The operation that a command byte on the wire stands for, if any.
pub open spec fn command_type_from_code(b: u8) -> Option<CommandType> {
    if b == 0x01 {
        Some(CommandType::Inventory)
    } else if b == 0x02 {
        Some(CommandType::ReadData)
    } else if b == 0x03 {
        Some(CommandType::WriteData)
    } else if b == 0x04 {
        Some(CommandType::WriteEPC)
    } else if b == 0x05 {
        Some(CommandType::KillTag)
    } else if b == 0x06 {
        Some(CommandType::Lock)
    } else if b == 0x07 {
        Some(CommandType::BlockErase)
    } else if b == 0x08 {
        Some(CommandType::ReadProtect)
    } else if b == 0x09 {
        Some(CommandType::ReadProtectWithoutEPC)
    } else if b == 0x0A {
        Some(CommandType::ResetReadProtect)
    } else if b == 0x0B {
        Some(CommandType::CheckReadProtect)
    } else if b == 0x0C {
        Some(CommandType::EASAlarm)
    } else if b == 0x0D {
        Some(CommandType::CheckEASAlarm)
    } else if b == 0x0E {
        Some(CommandType::BlockLock)
    } else if b == 0x0F {
        Some(CommandType::InventorySingle)
    } else if b == 0x10 {
        Some(CommandType::BlockWrite)
    } else if b == 0x50 {
        Some(CommandType::InventorySignal6B)
    } else if b == 0x51 {
        Some(CommandType::InventoryMultiple6B)
    } else if b == 0x52 {
        Some(CommandType::ReadData6B)
    } else if b == 0x53 {
        Some(CommandType::WriteData6B)
    } else if b == 0x54 {
        Some(CommandType::CheckLock6B)
    } else if b == 0x55 {
        Some(CommandType::Lock6B)
    } else if b == 0x21 {
        Some(CommandType::GetReaderInformation)
    } else if b == 0x22 {
        Some(CommandType::SetRegion)
    } else if b == 0x24 {
        Some(CommandType::SetAddress)
    } else if b == 0x25 {
        Some(CommandType::SetScanTime)
    } else if b == 0x28 {
        Some(CommandType::SetBaudRate)
    } else if b == 0x2F {
        Some(CommandType::SetPower)
    } else if b == 0x33 {
        Some(CommandType::AcoustoOpticControl)
    } else {
        None
    }
}

impl CommandType {
    /// The byte that stands for this operation on the wire.
    pub open spec fn spec_code(self) -> u8 {
        match self {
            CommandType::Inventory => 0x01,
            CommandType::ReadData => 0x02,
            CommandType::WriteData => 0x03,
            CommandType::WriteEPC => 0x04,
            CommandType::KillTag => 0x05,
            CommandType::Lock => 0x06,
            CommandType::BlockErase => 0x07,
            CommandType::ReadProtect => 0x08,
            CommandType::ReadProtectWithoutEPC => 0x09,
            CommandType::ResetReadProtect => 0x0A,
            CommandType::CheckReadProtect => 0x0B,
            CommandType::EASAlarm => 0x0C,
            CommandType::CheckEASAlarm => 0x0D,
            CommandType::BlockLock => 0x0E,
            CommandType::InventorySingle => 0x0F,
            CommandType::BlockWrite => 0x10,
            CommandType::InventorySignal6B => 0x50,
            CommandType::InventoryMultiple6B => 0x51,
            CommandType::ReadData6B => 0x52,
            CommandType::WriteData6B => 0x53,
            CommandType::CheckLock6B => 0x54,
            CommandType::Lock6B => 0x55,
            CommandType::GetReaderInformation => 0x21,
            CommandType::SetRegion => 0x22,
            CommandType::SetAddress => 0x24,
            CommandType::SetScanTime => 0x25,
            CommandType::SetBaudRate => 0x28,
            CommandType::SetPower => 0x2F,
            CommandType::AcoustoOpticControl => 0x33,
        }
    }

    /// The byte that stands for this operation on the wire.
    pub fn code(&self) -> (r: u8)
        ensures
            r == self.spec_code(),
    {
        match self {
            CommandType::Inventory => 0x01,
            CommandType::ReadData => 0x02,
            CommandType::WriteData => 0x03,
            CommandType::WriteEPC => 0x04,
            CommandType::KillTag => 0x05,
            CommandType::Lock => 0x06,
            CommandType::BlockErase => 0x07,
            CommandType::ReadProtect => 0x08,
            CommandType::ReadProtectWithoutEPC => 0x09,
            CommandType::ResetReadProtect => 0x0A,
            CommandType::CheckReadProtect => 0x0B,
            CommandType::EASAlarm => 0x0C,
            CommandType::CheckEASAlarm => 0x0D,
            CommandType::BlockLock => 0x0E,
            CommandType::InventorySingle => 0x0F,
            CommandType::BlockWrite => 0x10,
            CommandType::InventorySignal6B => 0x50,
            CommandType::InventoryMultiple6B => 0x51,
            CommandType::ReadData6B => 0x52,
            CommandType::WriteData6B => 0x53,
            CommandType::CheckLock6B => 0x54,
            CommandType::Lock6B => 0x55,
            CommandType::GetReaderInformation => 0x21,
            CommandType::SetRegion => 0x22,
            CommandType::SetAddress => 0x24,
            CommandType::SetScanTime => 0x25,
            CommandType::SetBaudRate => 0x28,
            CommandType::SetPower => 0x2F,
            CommandType::AcoustoOpticControl => 0x33,
        }
    }

    /// Decodes a command byte; `None` for a byte that is no known operation.
    pub fn from_code(b: u8) -> (r: Option<CommandType>)
        ensures
            r == command_type_from_code(b),
    {
        match b {
            0x01 => Some(CommandType::Inventory),
            0x02 => Some(CommandType::ReadData),
            0x03 => Some(CommandType::WriteData),
            0x04 => Some(CommandType::WriteEPC),
            0x05 => Some(CommandType::KillTag),
            0x06 => Some(CommandType::Lock),
            0x07 => Some(CommandType::BlockErase),
            0x08 => Some(CommandType::ReadProtect),
            0x09 => Some(CommandType::ReadProtectWithoutEPC),
            0x0A => Some(CommandType::ResetReadProtect),
            0x0B => Some(CommandType::CheckReadProtect),
            0x0C => Some(CommandType::EASAlarm),
            0x0D => Some(CommandType::CheckEASAlarm),
            0x0E => Some(CommandType::BlockLock),
            0x0F => Some(CommandType::InventorySingle),
            0x10 => Some(CommandType::BlockWrite),
            0x50 => Some(CommandType::InventorySignal6B),
            0x51 => Some(CommandType::InventoryMultiple6B),
            0x52 => Some(CommandType::ReadData6B),
            0x53 => Some(CommandType::WriteData6B),
            0x54 => Some(CommandType::CheckLock6B),
            0x55 => Some(CommandType::Lock6B),
            0x21 => Some(CommandType::GetReaderInformation),
            0x22 => Some(CommandType::SetRegion),
            0x24 => Some(CommandType::SetAddress),
            0x25 => Some(CommandType::SetScanTime),
            0x28 => Some(CommandType::SetBaudRate),
            0x2F => Some(CommandType::SetPower),
            0x33 => Some(CommandType::AcoustoOpticControl),
            _ => None,
        }
    }
}

/// The two checksum bytes, low byte first.
pub open spec fn crc_bytes(c: u16) -> Seq<u8> {
    seq![(c % 256) as u8, (c / 256) as u8]
}

/// The bytes of a packet that the checksum covers.
pub open spec fn packet_head(address: u8, code: u8, payload: Seq<u8>) -> Seq<u8> {
    seq![(payload.len() + 4) as u8, address, code] + payload
}

/// A whole packet: its head followed by the head's checksum.
pub open spec fn packet(address: u8, code: u8, payload: Seq<u8>) -> Seq<u8> {
    packet_head(address, code, payload) + crc_bytes(mcrf4xx(packet_head(address, code, payload)))
}

/// The length byte counts the bytes that follow it, and there are at least
/// `min` of them besides the three of the header and the two of the checksum.
pub open spec fn frame_length_ok(bytes: Seq<u8>, min: int) -> bool {
    &&& bytes.len() >= 5 + min
    &&& bytes[0] as int == bytes.len() - 1
}

/// The last two bytes, read little-endian, are the checksum of the others.
pub open spec fn frame_crc_ok(bytes: Seq<u8>) -> bool {
    let n = bytes.len() as int;
    mcrf4xx(bytes.subrange(0, n - 2)) as int == bytes[n - 2] as int + 256 * bytes[n - 1] as int
}

/// What stands between the three header bytes and the checksum.
pub open spec fn frame_body(bytes: Seq<u8>) -> Seq<u8> {
    bytes.subrange(3, bytes.len() - 2)
}

/// Appends `src` to `dst`.
pub(crate) fn append_bytes(dst: &mut Vec<u8>, src: &[u8])
    ensures
        final(dst)@ == old(dst)@ + src@,
{
    let mut i: usize = 0;
    while i < src.len()
        invariant
            i <= src@.len(),
            dst@ == old(dst)@ + src@.subrange(0, i as int),
        decreases src@.len() - i,
    {
        dst.push(src[i]);
        i = i + 1;
        assert(src@.subrange(0, i as int) =~= src@.subrange(0, i - 1) + seq![src@[i - 1]]);
    }
    assert(src@.subrange(0, i as int) =~= src@);
}

/// Checks the length byte and the checksum of a received frame.
fn check_frame(bytes: &[u8], min: usize) -> (r: Result<()>)
    requires
        min <= MAX_PAYLOAD,
    ensures
        !frame_length_ok(bytes@, min as int) ==> fails_with(r, "Bad length"@),
        frame_length_ok(bytes@, min as int) && !frame_crc_ok(bytes@) ==> fails_with(r, "Bad CRC"@,
        ),
        r is Ok <==> frame_length_ok(bytes@, min as int) && frame_crc_ok(bytes@),
{
    let len = bytes.len();
    if len < 5 + min || bytes[0] as usize != len - 1 {
        return Err(program_error("Bad length"));
    }
    let crc = calculate_crc(&bytes[0..len - 2]);
    let received: u16 = (bytes[len - 1] as u16) * 256 + bytes[len - 2] as u16;
    if received != crc {
        return Err(program_error("Bad CRC"));
    }
    Ok(())
}

/// A request to the reader.
#[derive(PartialEq, Debug)]
pub struct Command {
    pub address: u8,
    pub command: CommandType,
    pub data: Vec<u8>,
}

impl Command {
    /// The packet that carries this command; a payload longer than
    /// `MAX_PAYLOAD` does not fit the length byte and is refused.
    pub fn to_bytes(&self) -> (r: Result<Vec<u8>>)
        ensures
            self.data@.len() <= MAX_PAYLOAD ==> (r matches Ok(v) && v@ == packet(
                self.address,
                self.command.spec_code(),
                self.data@,
            )),
            self.data@.len() > MAX_PAYLOAD ==> fails_with(r, "Payload too long"@),
    {
        if self.data.len() > MAX_PAYLOAD {
            return Err(program_error("Payload too long"));
        }
        let mut pkt: Vec<u8> = Vec::new();
        pkt.push((self.data.len() + 4) as u8);
        pkt.push(self.address);
        pkt.push(self.command.code());
        append_bytes(&mut pkt, self.data.as_slice());
        assert(pkt@ =~= packet_head(self.address, self.command.spec_code(), self.data@));
        let crc = calculate_crc(pkt.as_slice());
        pkt.push((crc % 256) as u8);
        pkt.push((crc / 256) as u8);
        assert(pkt@ =~= packet(self.address, self.command.spec_code(), self.data@));
        Ok(pkt)
    }

    /// Decodes a command packet, checking its length byte and its checksum.
    pub fn from_bytes(bytes: &[u8]) -> (r: Result<Command>)
        ensures
            !frame_length_ok(bytes@, 0) ==> fails_with(r, "Bad length"@),
            frame_length_ok(bytes@, 0) && !frame_crc_ok(bytes@) ==> fails_with(r, "Bad CRC"@,
            ),
            frame_length_ok(bytes@, 0) && frame_crc_ok(bytes@) && command_type_from_code(
                bytes@[2],
            ) is None ==> fails_with(r, "Unknown command code"@),
            r is Ok <==> frame_length_ok(bytes@, 0) && frame_crc_ok(bytes@)
                && command_type_from_code(bytes@[2]) is Some,
            r matches Ok(c) ==> {
                &&& c.address == bytes@[1]
                &&& Some(c.command) == command_type_from_code(bytes@[2])
                &&& c.data@ == frame_body(bytes@)
            },
    {
        check_frame(bytes, 0)?;
        let len = bytes.len();
        let command = match CommandType::from_code(bytes[2]) {
            Some(c) => c,
            None => return Err(program_error("Unknown command code")),
        };
        let mut data: Vec<u8> = Vec::new();
        append_bytes(&mut data, &bytes[3..len - 2]);
        Ok(Command { address: bytes[1], command, data })
    }
}

/// A reply from the reader.
#[derive(PartialEq, Debug)]
pub struct Response {
    pub address: u8,
    /// The operation code that the reader echoes back.
    pub command: u8,
    pub status: ResponseStatus,
    pub data: Vec<u8>,
}

impl Response {
    /// Decodes a response packet, length byte included. The length byte
    /// must count the bytes that follow it, the checksum must match and the
    /// status byte must be a known one; otherwise nothing is decoded.
    pub fn from_bytes(bytes: &[u8]) -> (r: Result<Response>)
        ensures
            !frame_length_ok(bytes@, 1) ==> fails_with(r, "Bad length"@),
            frame_length_ok(bytes@, 1) && !frame_crc_ok(bytes@) ==> fails_with(r, "Bad CRC"@,
            ),
            frame_length_ok(bytes@, 1) && frame_crc_ok(bytes@) && status_from_code(bytes@[3])
                is None ==> fails_with(r, "Unknown status code"@),
            r is Ok <==> frame_length_ok(bytes@, 1) && frame_crc_ok(bytes@) && status_from_code(
                bytes@[3],
            ) is Some,
            r matches Ok(resp) ==> {
                &&& resp.address == bytes@[1]
                &&& resp.command == bytes@[2]
                &&& Some(resp.status) == status_from_code(bytes@[3])
                &&& resp.data@ == frame_body(bytes@).drop_first()
            },
    {
        check_frame(bytes, 1)?;
        let len = bytes.len();
        let status = match ResponseStatus::from_code(bytes[3]) {
            Some(s) => s,
            None => return Err(program_error("Unknown status code")),
        };
        let mut data: Vec<u8> = Vec::new();
        append_bytes(&mut data, &bytes[4..len - 2]);
        assert(data@ =~= frame_body(bytes@).drop_first());
        Ok(Response { address: bytes[1], command: bytes[2], status, data })
    }
}

/// A packet built from an address, an operation code and a payload that fits
/// decodes to that same address, code and payload, with its checksum intact.
pub proof fn lemma_packet_round_trip(address: u8, code: u8, payload: Seq<u8>)
    requires
        payload.len() <= MAX_PAYLOAD,
    ensures
        frame_length_ok(packet(address, code, payload), 0),
        frame_crc_ok(packet(address, code, payload)),
        packet(address, code, payload)[1] == address,
        packet(address, code, payload)[2] == code,
        frame_body(packet(address, code, payload)) == payload,
{
    let head = packet_head(address, code, payload);
    let p = packet(address, code, payload);
    let c = mcrf4xx(head);
    assert(p.subrange(0, p.len() - 2) =~= head);
    assert(frame_body(p) =~= payload);
    assert(p[p.len() - 2] == (c % 256) as u8);
    assert(p[p.len() - 1] == (c / 256) as u8);
}

/// Encoding a command and decoding the bytes gives back its address, its
/// operation and its payload.
pub proof fn lemma_command_round_trip(address: u8, command: CommandType, payload: Seq<u8>)
    requires
        payload.len() <= MAX_PAYLOAD,
    ensures
        ({
            let p = packet(address, command.spec_code(), payload);
            &&& frame_length_ok(p, 0)
            &&& frame_crc_ok(p)
            &&& p[1] == address
            &&& command_type_from_code(p[2]) == Some(command)
            &&& frame_body(p) == payload
        }),
{
    lemma_packet_round_trip(address, command.spec_code(), payload);
}

/// A reply framed the way commands are, with a status byte ahead of its
/// payload, decodes to that address, echo, status and payload: both
/// directions share one framing and one checksum.
pub proof fn lemma_response_round_trip(
    address: u8,
    echo: u8,
    status: ResponseStatus,
    payload: Seq<u8>,
)
    requires
        payload.len() < MAX_PAYLOAD,
    ensures
        ({
            let p = packet(address, echo, seq![status.spec_code()] + payload);
            &&& frame_length_ok(p, 1)
            &&& frame_crc_ok(p)
            &&& p[1] == address
            &&& p[2] == echo
            &&& status_from_code(p[3]) == Some(status)
            &&& frame_body(p).drop_first() == payload
        }),
{
    let body = seq![status.spec_code()] + payload;
    lemma_packet_round_trip(address, echo, body);
    lemma_status_code_round_trip(status, 0);
    let p = packet(address, echo, body);
    assert(p[3] == frame_body(p)[0]);
    assert(frame_body(p).drop_first() =~= payload);
}

} // verus!
