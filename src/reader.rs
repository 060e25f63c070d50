//! The reader's operations as pure steps: the command that starts each one,
//! and the result that its response yields. Sending the bytes and reading
//! the reply belong to whoever owns the byte channel.
use crate::commands::{KillCommand, ReadCommand, WriteCommand};
use crate::error::{fails_with, is_status_error, program_error, Error, Result};
use crate::packet::{append_bytes, Command, CommandType, Response};
use crate::status::{ResponseStatus, StatusClass};
use vstd::prelude::*;

verus! {

/// What the reader reports about itself.
#[derive(PartialEq, Debug)]
pub struct ReaderInformation {
    pub version: Vec<u8>,
    pub reader_type: u8,
    pub supported_protocols: u8,
    pub max_freq: u8,
    pub min_freq: u8,
    pub power: u8,
    pub scan_time: u8,
}

impl ReaderInformation {
    /// Whether `self` is the record that the 8 bytes `b` hold.
    pub open spec fn decodes(&self, b: Seq<u8>) -> bool {
        &&& b.len() == 8
        &&& self.version@ == b.subrange(0, 2)
        &&& self.reader_type == b[2]
        &&& self.supported_protocols == b[3]
        &&& self.max_freq == b[4]
        &&& self.min_freq == b[5]
        &&& self.power == b[6]
        &&& self.scan_time == b[7]
    }

    /// Decodes the fixed 8-byte record; any other length is refused.
    pub fn from_bytes(bytes: &[u8]) -> (r: Result<ReaderInformation>)
        ensures
            bytes@.len() == 8 ==> (r matches Ok(info) && info.decodes(bytes@)),
            bytes@.len() != 8 ==> fails_with(r, "Reader information must be 8 bytes"@,
            ),
    {
        if bytes.len() != 8 {
            return Err(program_error("Reader information must be 8 bytes"));
        }
        let mut version: Vec<u8> = Vec::new();
        append_bytes(&mut version, &bytes[0..2]);
        Ok(
            ReaderInformation {
                version,
                reader_type: bytes[2],
                supported_protocols: bytes[3],
                max_freq: bytes[4],
                min_freq: bytes[5],
                power: bytes[6],
                scan_time: bytes[7],
            },
        )
    }
}

/// The first `n` records `[len, ...bytes]` of `data`, each as its bytes;
/// `None` when `data` ends before them.
pub open spec fn parse_tags(data: Seq<u8>, n: nat) -> Option<Seq<Seq<u8>>>
    decreases n,
{
    if n == 0 {
        Some(Seq::empty())
    } else if data.len() == 0 || data.len() < 1 + data[0] {
        None
    } else {
        match parse_tags(data.subrange(1 + data[0], data.len() as int), (n - 1) as nat) {
            Some(rest) => Some(seq![data.subrange(1, 1 + data[0])] + rest),
            None => None,
        }
    }
}

/// The tags of an inventory payload: a count byte, then that many records.
pub open spec fn inventory_tags(payload: Seq<u8>) -> Option<Seq<Seq<u8>>> {
    if payload.len() == 0 {
        None
    } else {
        parse_tags(payload.drop_first(), payload[0] as nat)
    }
}

/// The byte sequences held in a vector of byte vectors.
pub open spec fn tags_view(tags: Seq<Vec<u8>>) -> Seq<Seq<u8>> {
    tags.map_values(|t: Vec<u8>| t@)
}

/// Splits an inventory payload into the tags' EPCs.
pub fn parse_inventory(data: &[u8]) -> (r: Result<Vec<Vec<u8>>>)
    ensures
        inventory_tags(data@) matches Some(tags) ==> (r matches Ok(v) && tags_view(v@) == tags),
        inventory_tags(data@) is None ==> fails_with(r, "Malformed inventory"@),
{
    if data.len() == 0 {
        return Err(program_error("Malformed inventory"));
    }
    let num_tags = data[0];
    let len = data.len();
    let mut offset: usize = 1;
    let mut tags: Vec<Vec<u8>> = Vec::new();
    let mut i: u8 = 0;
    while i < num_tags
        invariant
            len == data@.len(),
            1 <= offset <= len,
            i <= num_tags,
            num_tags == data@[0],
            inventory_tags(data@) == match parse_tags(
                data@.subrange(offset as int, len as int),
                (num_tags - i) as nat,
            ) {
                Some(rest) => Some(tags_view(tags@) + rest),
                None => None::<Seq<Seq<u8>>>,
            },
        decreases num_tags - i,
    {
        let ghost rest_data = data@.subrange(offset as int, len as int);
        if offset >= len || len - offset - 1 < data[offset] as usize {
            return Err(program_error("Malformed inventory"));
        }
        let tag_len = data[offset] as usize;
        let mut tag: Vec<u8> = Vec::new();
        append_bytes(&mut tag, &data[offset + 1..offset + 1 + tag_len]);
        proof {
            assert(tag@ =~= rest_data.subrange(1, 1 + rest_data[0]));
            assert(rest_data.subrange(1 + rest_data[0], rest_data.len() as int) =~= data@.subrange(
                (offset + 1 + tag_len) as int,
                len as int,
            ));
            assert(tags_view(tags@.push(tag)) =~= tags_view(tags@).push(tag@));
            match parse_tags(
                data@.subrange((offset + 1 + tag_len) as int, len as int),
                (num_tags - i - 1) as nat,
            ) {
                Some(rest) => {
                    assert(tags_view(tags@) + (seq![tag@] + rest) =~= tags_view(tags@).push(tag@)
                        + rest);
                },
                None => {},
            }
        }
        tags.push(tag);
        offset = offset + 1 + tag_len;
        i = i + 1;
    }
    assert(tags_view(tags@) + Seq::<Seq<u8>>::empty() =~= tags_view(tags@));
    Ok(tags)
}

/// `Ok` for a status that completed the operation, else the error of its class.
pub fn check_status(status: ResponseStatus) -> (r: Result<()>)
    ensures
        status.spec_class() == StatusClass::Success ==> r is Ok,
        status.spec_class() != StatusClass::Success ==> (r matches Err(e) && is_status_error(e, status)),
{
    if status.is_success() {
        Ok(())
    } else {
        Err(Error::from_status(status))
    }
}

/// The command that asks the reader at `address` about itself.
pub fn reader_information_command(address: u8) -> (c: Command)
    ensures
        c.address == address,
        c.command == CommandType::GetReaderInformation,
        c.data@ == Seq::<u8>::empty(),
{
    Command { address, command: CommandType::GetReaderInformation, data: Vec::new() }
}

/// The command that asks the reader at `address` for the tags in its field.
pub fn inventory_command(address: u8) -> (c: Command)
    ensures
        c.address == address,
        c.command == CommandType::Inventory,
        c.data@ == Seq::<u8>::empty(),
{
    Command { address, command: CommandType::Inventory, data: Vec::new() }
}

/// The command that reads tag memory, or the builder's error.
pub fn read_data_command(address: u8, read_cmd: &ReadCommand) -> (r: Result<Command>)
    ensures
        read_cmd.spec_problem() matches Some(m) ==> fails_with(r, m),
        read_cmd.spec_problem() is None ==> (r matches Ok(c) && c.address == address
            && c.command == CommandType::ReadData && c.data@ == read_cmd.spec_payload()),
{
    match read_cmd.to_bytes() {
        Ok(data) => Ok(Command { address, command: CommandType::ReadData, data }),
        Err(e) => Err(e),
    }
}

/// The command that writes tag memory, or the builder's error.
pub fn write_data_command(address: u8, write_cmd: &WriteCommand) -> (r: Result<Command>)
    ensures
        write_cmd.spec_problem() matches Some(m) ==> fails_with(r, m),
        write_cmd.spec_problem() is None ==> (r matches Ok(c) && c.address == address
            && c.command == CommandType::WriteData && c.data@ == write_cmd.spec_payload()),
{
    match write_cmd.to_bytes() {
        Ok(data) => Ok(Command { address, command: CommandType::WriteData, data }),
        Err(e) => Err(e),
    }
}

/// The command that kills a tag, or the builder's error.
pub fn kill_command(address: u8, kill_cmd: &KillCommand) -> (r: Result<Command>)
    ensures
        kill_cmd.spec_problem() matches Some(m) ==> fails_with(r, m),
        kill_cmd.spec_problem() is None ==> (r matches Ok(c) && c.address == address
            && c.command == CommandType::KillTag && c.data@ == kill_cmd.spec_payload()),
{
    match kill_cmd.to_bytes() {
        Ok(data) => Ok(Command { address, command: CommandType::KillTag, data }),
        Err(e) => Err(e),
    }
}

/// The reader's description, from its reply to `reader_information_command`.
pub fn reader_information_reply(resp: &Response) -> (r: Result<ReaderInformation>)
    ensures
        resp.status.spec_class() != StatusClass::Success ==> (r matches Err(e) && is_status_error(
            e,
            resp.status,
        )),
        resp.status.spec_class() == StatusClass::Success && resp.data@.len() == 8 ==> (r matches Ok(
            info,
        ) && info.decodes(resp.data@)),
        resp.status.spec_class() == StatusClass::Success && resp.data@.len() != 8 ==> fails_with(
            r,
            "Reader information must be 8 bytes"@,
        ),
{
    match check_status(resp.status) {
        Ok(()) => ReaderInformation::from_bytes(resp.data.as_slice()),
        Err(e) => Err(e),
    }
}

/// The EPCs of the tags in the field, from the reply to `inventory_command`.
/// A reader that found no tags yields an empty list, not an error.
pub fn inventory_reply(resp: &Response) -> (r: Result<Vec<Vec<u8>>>)
    ensures
        resp.status == ResponseStatus::NoTags ==> (r matches Ok(v) && v@.len() == 0),
        resp.status != ResponseStatus::NoTags && resp.status.spec_class() != StatusClass::Success
            ==> (r matches Err(e) && is_status_error(e, resp.status)),
        resp.status.spec_class() == StatusClass::Success ==> {
            &&& inventory_tags(resp.data@) matches Some(tags) ==> (r matches Ok(v) && tags_view(v@)
                == tags)
            &&& inventory_tags(resp.data@) is None ==> fails_with(r, "Malformed inventory"@)
        },
{
    if resp.status == ResponseStatus::NoTags {
        return Ok(Vec::new());
    }
    match check_status(resp.status) {
        Ok(()) => parse_inventory(resp.data.as_slice()),
        Err(e) => Err(e),
    }
}

/// The memory words read, from the reply to `read_data_command`.
pub fn read_data_reply(resp: Response) -> (r: Result<Vec<u8>>)
    ensures
        resp.status.spec_class() == StatusClass::Success ==> (r matches Ok(v) && v@ == resp.data@),
        resp.status.spec_class() != StatusClass::Success ==> (r matches Err(e) && is_status_error(
            e,
            resp.status,
        )),
{
    match check_status(resp.status) {
        Ok(()) => Ok(resp.data),
        Err(e) => Err(e),
    }
}

} // verus!
