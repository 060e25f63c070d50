//! The packet checksum shared by outgoing commands and incoming responses.
use crc16::{State, MCRF4XX};
use vstd::prelude::*;

verus! {

/// The CRC-16/MCRF4XX checksum of a byte sequence, as the reader's firmware
/// computes it.
pub uninterp spec fn mcrf4xx(data: Seq<u8>) -> u16;

/// Relies on crc16::State::<MCRF4XX>::calculate, which folds the message
/// through a fixed table from a fixed seed: the result depends on the bytes
/// alone.
#[verifier::external_body]
pub fn calculate_crc(data: &[u8]) -> (r: u16)
    ensures
        r == mcrf4xx(data@),
{
    State::<MCRF4XX>::calculate(data)
}

} // verus!
