//! Payloads of the tag memory operations. Word counts are in 2-byte words,
//! the access password is four bytes (zeros when none is given), and the
//! mask's address and length are sent both or not at all.
use crate::error::{fails_with, program_error, Result};
use crate::packet::append_bytes;
use vstd::prelude::*;

verus! {

/// A memory bank of a tag.
#[derive(PartialEq, Eq, Structural, Debug, Copy, Clone)]
pub enum MemoryLocation {
    Password,
    EPC,
    TID,
    User,
}

impl MemoryLocation {
    /// The byte that selects this bank on the wire.
    pub open spec fn spec_code(self) -> u8 {
        match self {
            MemoryLocation::Password => 0x00,
            MemoryLocation::EPC => 0x01,
            MemoryLocation::TID => 0x02,
            MemoryLocation::User => 0x03,
        }
    }

    /// The byte that selects this bank on the wire.
    pub fn code(&self) -> (r: u8)
        ensures
            r == self.spec_code(),
    {
        match self {
            MemoryLocation::Password => 0x00,
            MemoryLocation::EPC => 0x01,
            MemoryLocation::TID => 0x02,
            MemoryLocation::User => 0x03,
        }
    }
}

/// The longest EPC or data field whose word count fits in one byte.
pub const MAX_FIELD: usize = 510;

/// The password as sent: the given four bytes, or four zeros.
pub open spec fn password_field(p: Option<Vec<u8>>) -> Seq<u8> {
    match p {
        Some(v) => v@,
        None => seq![0u8, 0u8, 0u8, 0u8],
    }
}

/// A given password has four bytes.
pub open spec fn password_ok(p: Option<Vec<u8>>) -> bool {
    p matches Some(v) ==> v@.len() == 4
}

/// The mask as sent: address and length when both are given, else nothing.
pub open spec fn mask_field(address: Option<u8>, length: Option<u8>) -> Seq<u8> {
    match (address, length) {
        (Some(a), Some(l)) => seq![a, l],
        _ => Seq::empty(),
    }
}

/// The mask's address and length are given both or neither.
pub open spec fn mask_ok(address: Option<u8>, length: Option<u8>) -> bool {
    address is Some == length is Some
}

/// The number of 2-byte words in `n` bytes.
pub open spec fn words(n: nat) -> u8 {
    (n / 2) as u8
}

/// Checks the optional password and the mask pair.
fn check_options(password: &Option<Vec<u8>>, address: Option<u8>, length: Option<u8>) -> (r: Result<()>)
    ensures
        !password_ok(*password) ==> fails_with(r, "Password must be 4 bytes"@),
        password_ok(*password) && !mask_ok(address, length) ==> fails_with(r, "Mask address and length must be given together"@,
        ),
        r is Ok <==> password_ok(*password) && mask_ok(address, length),
{
    if let Some(p) = password {
        if p.len() != 4 {
            return Err(program_error("Password must be 4 bytes"));
        }
    }
    if address.is_some() != length.is_some() {
        return Err(program_error("Mask address and length must be given together"));
    }
    Ok(())
}

/// Appends the password field.
fn push_password(pkt: &mut Vec<u8>, password: &Option<Vec<u8>>)
    ensures
        final(pkt)@ == old(pkt)@ + password_field(*password),
{
    match password {
        Some(p) => append_bytes(pkt, p.as_slice()),
        None => {
            pkt.push(0);
            pkt.push(0);
            pkt.push(0);
            pkt.push(0);
            assert(pkt@ =~= old(pkt)@ + password_field(*password));
        },
    }
}

/// Appends the mask field.
fn push_mask(pkt: &mut Vec<u8>, address: Option<u8>, length: Option<u8>)
    ensures
        final(pkt)@ == old(pkt)@ + mask_field(address, length),
{
    match (address, length) {
        (Some(a), Some(l)) => {
            pkt.push(a);
            pkt.push(l);
            assert(pkt@ =~= old(pkt)@ + mask_field(address, length));
        },
        _ => {
            assert(pkt@ =~= old(pkt)@ + mask_field(address, length));
        },
    }
}

/// Reads `count` words from a bank of the tag with the given EPC.
#[derive(PartialEq, Debug)]
pub struct ReadCommand {
    pub epc: Vec<u8>,
    pub location: MemoryLocation,
    pub start_address: u8,
    pub count: u8,
    pub password: Option<Vec<u8>>,
    pub mask_address: Option<u8>,
    pub mask_length: Option<u8>,
}

impl ReadCommand {
    /// The payload: `[epc words, ...epc, bank, start, count, ...password, ...mask]`.
    pub open spec fn spec_payload(&self) -> Seq<u8> {
        seq![words(self.epc@.len())] + self.epc@ + seq![
            self.location.spec_code(),
            self.start_address,
            self.count,
        ] + password_field(self.password) + mask_field(self.mask_address, self.mask_length)
    }

    /// The first rule that the command breaks, as the message of its error.
    pub open spec fn spec_problem(&self) -> Option<Seq<char>> {
        if self.epc@.len() % 2 != 0 {
            Some("EPC length must be even"@)
        } else if self.epc@.len() > MAX_FIELD {
            Some("EPC too long"@)
        } else if !password_ok(self.password) {
            Some("Password must be 4 bytes"@)
        } else if !mask_ok(self.mask_address, self.mask_length) {
            Some("Mask address and length must be given together"@)
        } else {
            None
        }
    }

    /// Encodes the payload of a read request.
    pub fn to_bytes(&self) -> (r: Result<Vec<u8>>)
        ensures
            self.spec_problem() matches Some(m) ==> fails_with(r, m),
            self.spec_problem() is None ==> (r matches Ok(v) && v@ == self.spec_payload()),
            self.password is None ==> (r matches Ok(v) ==> v@.subrange(
                self.epc@.len() + 4int,
                self.epc@.len() + 8int,
            ) == seq![0u8, 0u8, 0u8, 0u8]),
    {
        if self.epc.len() % 2 != 0 {
            return Err(program_error("EPC length must be even"));
        }
        if self.epc.len() > MAX_FIELD {
            return Err(program_error("EPC too long"));
        }
        check_options(&self.password, self.mask_address, self.mask_length)?;
        let mut pkt: Vec<u8> = Vec::new();
        pkt.push((self.epc.len() / 2) as u8);
        append_bytes(&mut pkt, self.epc.as_slice());
        pkt.push(self.location.code());
        pkt.push(self.start_address);
        pkt.push(self.count);
        push_password(&mut pkt, &self.password);
        push_mask(&mut pkt, self.mask_address, self.mask_length);
        assert(pkt@ =~= self.spec_payload());
        Ok(pkt)
    }
}

/// Writes `data` to a bank of the tag with the given EPC.
#[derive(PartialEq, Debug)]
pub struct WriteCommand {
    pub epc: Vec<u8>,
    pub location: MemoryLocation,
    pub start_address: u8,
    pub data: Vec<u8>,
    pub password: Option<Vec<u8>>,
    pub mask_address: Option<u8>,
    pub mask_length: Option<u8>,
}

impl WriteCommand {
    /// The payload:
    /// `[data words, epc words, ...epc, bank, start, ...data, ...password, ...mask]`.
    pub open spec fn spec_payload(&self) -> Seq<u8> {
        seq![words(self.data@.len()), words(self.epc@.len())] + self.epc@ + seq![
            self.location.spec_code(),
            self.start_address,
        ] + self.data@ + password_field(self.password) + mask_field(
            self.mask_address,
            self.mask_length,
        )
    }

    /// The first rule that the command breaks, as the message of its error.
    pub open spec fn spec_problem(&self) -> Option<Seq<char>> {
        if self.epc@.len() % 2 != 0 {
            Some("EPC length must be even"@)
        } else if self.epc@.len() > MAX_FIELD {
            Some("EPC too long"@)
        } else if self.data@.len() % 2 != 0 {
            Some("Data length must be even"@)
        } else if self.data@.len() > MAX_FIELD {
            Some("Data too long"@)
        } else if !password_ok(self.password) {
            Some("Password must be 4 bytes"@)
        } else if !mask_ok(self.mask_address, self.mask_length) {
            Some("Mask address and length must be given together"@)
        } else {
            None
        }
    }

    /// Encodes the payload of a write request.
    pub fn to_bytes(&self) -> (r: Result<Vec<u8>>)
        ensures
            self.spec_problem() matches Some(m) ==> fails_with(r, m),
            self.spec_problem() is None ==> (r matches Ok(v) && v@ == self.spec_payload()),
            self.password is None ==> (r matches Ok(v) ==> v@.subrange(
                self.epc@.len() + self.data@.len() + 4int,
                self.epc@.len() + self.data@.len() + 8int,
            ) == seq![0u8, 0u8, 0u8, 0u8]),
    {
        if self.epc.len() % 2 != 0 {
            return Err(program_error("EPC length must be even"));
        }
        if self.epc.len() > MAX_FIELD {
            return Err(program_error("EPC too long"));
        }
        if self.data.len() % 2 != 0 {
            return Err(program_error("Data length must be even"));
        }
        if self.data.len() > MAX_FIELD {
            return Err(program_error("Data too long"));
        }
        check_options(&self.password, self.mask_address, self.mask_length)?;
        let mut pkt: Vec<u8> = Vec::new();
        pkt.push((self.data.len() / 2) as u8);
        pkt.push((self.epc.len() / 2) as u8);
        append_bytes(&mut pkt, self.epc.as_slice());
        pkt.push(self.location.code());
        pkt.push(self.start_address);
        append_bytes(&mut pkt, self.data.as_slice());
        push_password(&mut pkt, &self.password);
        push_mask(&mut pkt, self.mask_address, self.mask_length);
        assert(pkt@ =~= self.spec_payload());
        Ok(pkt)
    }
}

/// Kills the tag with the given EPC, using its kill password (zeros when
/// none is given).
#[derive(PartialEq, Debug)]
pub struct KillCommand {
    pub epc: Vec<u8>,
    pub password: Option<Vec<u8>>,
    pub mask_address: Option<u8>,
    pub mask_length: Option<u8>,
}

impl KillCommand {
    /// The payload: `[epc words, ...epc, ...password, ...mask]`.
    pub open spec fn spec_payload(&self) -> Seq<u8> {
        seq![words(self.epc@.len())] + self.epc@ + password_field(self.password) + mask_field(
            self.mask_address,
            self.mask_length,
        )
    }

    /// The first rule that the command breaks, as the message of its error.
    pub open spec fn spec_problem(&self) -> Option<Seq<char>> {
        if self.epc@.len() % 2 != 0 {
            Some("EPC length must be even"@)
        } else if self.epc@.len() > MAX_FIELD {
            Some("EPC too long"@)
        } else if !password_ok(self.password) {
            Some("Password must be 4 bytes"@)
        } else if !mask_ok(self.mask_address, self.mask_length) {
            Some("Mask address and length must be given together"@)
        } else {
            None
        }
    }

    /// Encodes the payload of a kill request.
    pub fn to_bytes(&self) -> (r: Result<Vec<u8>>)
        ensures
            self.spec_problem() matches Some(m) ==> fails_with(r, m),
            self.spec_problem() is None ==> (r matches Ok(v) && v@ == self.spec_payload()),
            self.password is None ==> (r matches Ok(v) ==> v@.subrange(
                self.epc@.len() + 1int,
                self.epc@.len() + 5int,
            ) == seq![0u8, 0u8, 0u8, 0u8]),
    {
        if self.epc.len() % 2 != 0 {
            return Err(program_error("EPC length must be even"));
        }
        if self.epc.len() > MAX_FIELD {
            return Err(program_error("EPC too long"));
        }
        check_options(&self.password, self.mask_address, self.mask_length)?;
        let mut pkt: Vec<u8> = Vec::new();
        pkt.push((self.epc.len() / 2) as u8);
        append_bytes(&mut pkt, self.epc.as_slice());
        push_password(&mut pkt, &self.password);
        push_mask(&mut pkt, self.mask_address, self.mask_length);
        assert(pkt@ =~= self.spec_payload());
        Ok(pkt)
    }
}

/// A command that gives no password sends four zero bytes in the password's
/// place, a valid command's word counts are exactly half its byte counts, and a command of any kind that gives only one of the
/// mask's address and length is refused.
pub proof fn lemma_password_and_mask(rc: ReadCommand, wc: WriteCommand, kc: KillCommand)
    ensures
        rc.password is None ==> rc.spec_payload().subrange(
            rc.epc@.len() + 4int,
            rc.epc@.len() + 8int,
        ) == seq![0u8, 0u8, 0u8, 0u8],
        wc.password is None ==> wc.spec_payload().subrange(
            wc.epc@.len() + wc.data@.len() + 4int,
            wc.epc@.len() + wc.data@.len() + 8int,
        ) == seq![0u8, 0u8, 0u8, 0u8],
        kc.password is None ==> kc.spec_payload().subrange(
            kc.epc@.len() + 1int,
            kc.epc@.len() + 5int,
        ) == seq![0u8, 0u8, 0u8, 0u8],
        rc.spec_problem() is None ==> rc.spec_payload()[0] as int * 2 == rc.epc@.len(),
        wc.spec_problem() is None ==> wc.spec_payload()[0] as int * 2 == wc.data@.len(),
        wc.spec_problem() is None ==> wc.spec_payload()[1] as int * 2 == wc.epc@.len(),
        kc.spec_problem() is None ==> kc.spec_payload()[0] as int * 2 == kc.epc@.len(),
        !mask_ok(rc.mask_address, rc.mask_length) ==> rc.spec_problem() is Some,
        !mask_ok(wc.mask_address, wc.mask_length) ==> wc.spec_problem() is Some,
        !mask_ok(kc.mask_address, kc.mask_length) ==> kc.spec_problem() is Some,
{
    let re = rc.epc@.len() as int;
    if rc.password is None {
        assert(rc.spec_payload().subrange(re + 4, re + 8) =~= seq![0u8, 0u8, 0u8, 0u8]);
    }
    let wn = (wc.epc@.len() + wc.data@.len()) as int;
    if wc.password is None {
        assert(wc.spec_payload().subrange(wn + 4, wn + 8) =~= seq![0u8, 0u8, 0u8, 0u8]);
    }
    let ke = kc.epc@.len() as int;
    if kc.password is None {
        assert(kc.spec_payload().subrange(ke + 1, ke + 5) =~= seq![0u8, 0u8, 0u8, 0u8]);
    }
}

} // verus!
