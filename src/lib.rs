//! Protocol layer of a driver for the CF-RU5102 UHF RFID reader: packet
//! framing, the MCRF4XX checksum, command payloads, response decoding and
//! the classification of the device's status codes.
pub mod commands;
pub mod crc;
pub mod error;
pub mod packet;
pub mod reader;
pub mod status;

pub use commands::{KillCommand, MemoryLocation, ReadCommand, WriteCommand};
pub use crc::calculate_crc;
pub use error::{Error, Result};
pub use packet::{Command, CommandType, Response};
pub use reader::{
    check_status, inventory_command, inventory_reply, kill_command, parse_inventory,
    read_data_command, read_data_reply, reader_information_command, reader_information_reply,
    write_data_command, ReaderInformation,
};
pub use status::{ResponseStatus, StatusClass};
