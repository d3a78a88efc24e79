//! SD, eMMC and SDIO protocol logic.
//!
//! Register representations can be created from the words of a card
//! response or from the bytes of a register as the card transmits them
//! (most significant byte first).
//!
//! The bus itself (clocks, pins, DMA) is driven by the caller: the card
//! initialization sequences and transfers are state machines that ask for
//! one bus operation at a time and are told what the card answered.

use vstd::prelude::*;

pub mod common;
pub mod device;
pub mod emmc;
pub mod emmc_init;
pub mod sd;
pub mod sd_init;
pub mod sdio;
pub mod sdio_init;
pub mod spi;

use crate::common::{BlockSize, CardCapacity};

verus! {

/// Frequency used while a card is in identification mode.
pub const INIT_FREQ: u32 = 400_000;

/// Errors reported by the bus or derived from a card's answer.
#[derive(Debug)]
pub enum MmcError {
    Timeout,
    Crc,
    IllegalCommand,
    Busy,
    Io,
    SignalingSwitchFailed,
    Unsupported,
    Other,
}

/// Width of the data bus.
#[derive(Debug, Clone, Copy)]
pub enum BusWidth {
    W1,
    W4,
    W8,
}

/// Number of data lines of a bus width.
pub open spec fn bus_width_lines(w: BusWidth) -> nat {
    match w {
        BusWidth::W1 => 1,
        BusWidth::W4 => 4,
        BusWidth::W8 => 8,
    }
}

/// Length of a card response on the CMD line.
#[derive(Debug, Clone, Copy)]
pub enum ResponseLen {
    Zero,
    R48,
    R136,
}

/// A parsed response from the card.
///
/// Each command names its response type, so that a command always comes
/// back with the response that the specification assigns to it.
pub trait Response: Sized {
    /// Whether to check the CRC
    const CRC: bool;

    /// Whether to wait until DAT0 goes high
    const BUSY: bool;

    /// Response length
    const LEN: ResponseLen;

    /// Parse the reponse from words. Only the `ResponseLen` words are used.
    fn from_words(buf: &[u32; 4]) -> Self;
}

/// A protocol command (CMD0–CMD63, ACMDs, CMD52/53 for SDIO).
///
/// - `INDEX` is the fixed command index from the SD/MMC/SDIO spec.
/// - `arg()` returns the 32-bit argument field.
/// - `Resp<'a>` is the associated response type for this command.
pub trait Command {
    /// The fixed command index (e.g., 17 for CMD17).
    const INDEX: u8;

    /// The associated response type for this command.
    type Resp<'a>: Response where Self: 'a;

    /// The fixed command index (e.g., 17 for CMD17).
    fn index(&self) -> (r: u8)
        ensures
            r == Self::INDEX,
    {
        Self::INDEX
    }

    /// Compute the 32-bit argument for this command.
    fn arg(&self) -> u32;
}

/// Block-mode transfers: fixed-size blocks (CMD17/18/24/25, CMD53 block mode).
pub trait BlockCommand: Command {
    /// Size of each block.
    fn block_size(&self) -> BlockSize;

    /// Number of blocks to transfer.
    fn block_count(&self) -> u32;
}

/// Byte-mode transfers: arbitrary byte counts (CMD53 byte mode).
pub trait ByteCommand: Command {
    /// Number of bytes to transfer (arbitrary length).
    fn byte_count(&self) -> usize;
}

/// Commands with no data transfer (CMD0, CMD8, CMD55, etc.)
pub trait ControlCommand: Command {}

/// R0: no response.
pub struct R0;

impl Response for R0 {
    const CRC: bool = false;
    const LEN: ResponseLen = ResponseLen::Zero;
    const BUSY: bool = false;

    fn from_words(buf: &[u32; 4]) -> (r: Self) {
        R0
    }
}

/// R1 — Normal status response. 48-bit, CRC-checked, no busy.
pub struct R1 {
    pub status: u32,
}

/// Current state field of an R1 response.
#[derive(Debug, Clone, Copy, PartialEq, Eq)]
pub enum CardState {
    Idle,
    Ready,
    Ident,
    Standby,
    Transfer,
    Data,
    Receive,
    Programming,
    Reserved(u8),
}

/// The state that a 4-bit CURRENT_STATE code names.
pub open spec fn card_state_of(v: u8) -> CardState {
    if v == 0 {
        CardState::Idle
    } else if v == 1 {
        CardState::Ready
    } else if v == 2 {
        CardState::Ident
    } else if v == 3 {
        CardState::Standby
    } else if v == 4 {
        CardState::Transfer
    } else if v == 5 {
        CardState::Data
    } else if v == 6 {
        CardState::Receive
    } else if v == 7 {
        CardState::Programming
    } else {
        CardState::Reserved(v)
    }
}

impl R1 {
    /// Error bits defined in the SD Physical Spec §4.10.1 (Table 4-41).
    pub const ERR_MASK: u32 = 0xFDF9_8008;

    pub fn is_error(&self) -> (r: bool)
        ensures
            r == (self.status & 0xFDF9_8008 != 0),
    {
        self.status & Self::ERR_MASK != 0
    }

    pub fn app_cmd(&self) -> (r: bool)
        ensures
            r == (self.status & 0x20 != 0),
    {
        self.status & 0x20 != 0
    }

    pub fn ready_for_data(&self) -> (r: bool)
        ensures
            r == (self.status & 0x100 != 0),
    {
        self.status & 0x100 != 0
    }

    pub fn current_state(&self) -> (r: CardState)
        ensures
            r == card_state_of(((self.status >> 9u32) & 0xF) as u8),
    {
        let v = ((self.status >> 9) & 0xF) as u8;
        match v {
            0 => CardState::Idle,
            1 => CardState::Ready,
            2 => CardState::Ident,
            3 => CardState::Standby,
            4 => CardState::Transfer,
            5 => CardState::Data,
            6 => CardState::Receive,
            7 => CardState::Programming,
            other => CardState::Reserved(other),
        }
    }
}

impl Response for R1 {
    const CRC: bool = true;
    const LEN: ResponseLen = ResponseLen::R48;
    const BUSY: bool = false;

    fn from_words(buf: &[u32; 4]) -> (r: Self)
        ensures
            r.status == buf[0],
    {
        R1 { status: buf[0] }
    }
}

/// R1b — R1 + busy on DAT0. 48-bit, CRC-checked, busy.
pub struct R1b {
    pub status: u32,
}

impl Response for R1b {
    const CRC: bool = true;
    const LEN: ResponseLen = ResponseLen::R48;
    const BUSY: bool = true;

    fn from_words(buf: &[u32; 4]) -> (r: Self)
        ensures
            r.status == buf[0],
    {
        R1b { status: buf[0] }
    }
}

/// R2 — CID/CSD. 136-bit, CRC-checked, no busy.
pub struct R2 {
    pub words: [u32; 4],
}

impl Response for R2 {
    const CRC: bool = true;
    const LEN: ResponseLen = ResponseLen::R136;
    const BUSY: bool = false;

    fn from_words(buf: &[u32; 4]) -> (r: Self)
        ensures
            r.words@ == buf@,
    {
        R2 { words: [buf[0], buf[1], buf[2], buf[3]] }
    }
}

/// R3 — OCR (Operating Conditions). 48-bit, no CRC, no busy.
pub struct R3 {
    pub ocr: u32,
}

impl Response for R3 {
    const CRC: bool = false;
    const LEN: ResponseLen = ResponseLen::R48;
    const BUSY: bool = false;

    fn from_words(buf: &[u32; 4]) -> (r: Self)
        ensures
            r.ocr == buf[0],
    {
        R3 { ocr: buf[0] }
    }
}

/// R6 — Published RCA (SD only). 48-bit, CRC-checked, no busy.
pub struct R6 {
    pub rca: u16,
    pub status: u16,
}

impl Response for R6 {
    const CRC: bool = true;
    const LEN: ResponseLen = ResponseLen::R48;
    const BUSY: bool = false;

    fn from_words(buf: &[u32; 4]) -> (r: Self)
        ensures
            r.rca == buf[0] / 0x10000,
            r.status == buf[0] % 0x10000,
    {
        let v = buf[0];
        assert((v >> 16u32) as u16 == v / 0x10000 && (v & 0xFFFF) as u16 == v % 0x10000)
            by (bit_vector);
        R6 { rca: (v >> 16) as u16, status: (v & 0xFFFF) as u16 }
    }
}

/// R7 — Interface condition (CMD8). 48-bit, CRC-checked, no busy.
pub struct R7 {
    pub voltage: u8,
    pub check_pattern: u8,
}

impl Response for R7 {
    const CRC: bool = true;
    const LEN: ResponseLen = ResponseLen::R48;
    const BUSY: bool = false;

    fn from_words(buf: &[u32; 4]) -> (r: Self)
        ensures
            r.voltage == (buf[0] / 0x100) % 0x10,
            r.check_pattern == buf[0] % 0x100,
    {
        let v = buf[0];
        assert(((v >> 8u32) & 0xF) as u8 == (v / 0x100) % 0x10 && (v & 0xFF) as u8 == v % 0x100)
            by (bit_vector);
        R7 { voltage: ((v >> 8) & 0xF) as u8, check_pattern: (v & 0xFF) as u8 }
    }
}

/// R4 — SDIO OCR + capability. 48-bit, no CRC, no busy. Returned by CMD5.
pub struct R4 {
    pub ocr: u32,
}

impl Response for R4 {
    const CRC: bool = false;
    const LEN: ResponseLen = ResponseLen::R48;
    const BUSY: bool = false;

    fn from_words(buf: &[u32; 4]) -> (r: Self)
        ensures
            r.ocr == buf[0],
    {
        R4 { ocr: buf[0] }
    }
}

/// R5 — SDIO Direct I/O response. 48-bit, CRC-checked, no busy. Returned by CMD52.
pub struct R5 {
    pub flags: u8,
    pub data: u8,
}

/// The error that an R5 with the given flags reports, if any.
pub open spec fn r5_error(flags: u8) -> Option<MmcError> {
    if flags & 0x80 != 0 {
        Some(MmcError::Crc)
    } else if flags & 0x40 != 0 {
        Some(MmcError::IllegalCommand)
    } else if flags & 0x23 != 0 {
        Some(MmcError::Io)
    } else {
        None
    }
}

impl R5 {
    /// COM_CRC_ERROR: the CRC of the command that triggered this was bad.
    pub const FLAG_COM_CRC_ERROR: u8 = 0x80;
    /// ILLEGAL_COMMAND: command not legal in the current state.
    pub const FLAG_ILLEGAL_COMMAND: u8 = 0x40;
    /// General ERROR.
    pub const FLAG_ERROR: u8 = 0x20;
    /// FUNCTION_NUMBER: requested function does not exist on this card.
    pub const FLAG_FUNCTION_NUMBER: u8 = 0x02;
    /// OUT_OF_RANGE: register address out of range for this function.
    pub const FLAG_OUT_OF_RANGE: u8 = 0x01;
    /// Mask of all bits that indicate a hard error.
    pub const ERROR_FLAGS: u8 = Self::FLAG_COM_CRC_ERROR | Self::FLAG_ILLEGAL_COMMAND
        | Self::FLAG_ERROR | Self::FLAG_FUNCTION_NUMBER | Self::FLAG_OUT_OF_RANGE;

    pub fn is_error(&self) -> (r: bool)
        ensures
            r == (self.flags & 0xE3 != 0),
    {
        proof {
            lemma_r5_error_flags();
        }
        self.flags & Self::ERROR_FLAGS != 0
    }

    /// `Ok` when no error flag is set; otherwise the error that the first
    /// set flag (CRC, illegal command, other) stands for.
    pub fn to_result(&self) -> (r: Result<(), MmcError>)
        ensures
            r is Ok <==> !self.is_error_spec(),
            r is Err ==> Some(r->Err_0) == r5_error(self.flags),
    {
        proof {
            lemma_r5_error_flags();
        }
        let f = self.flags;
        assert(0x20u8 | 0x02u8 | 0x01u8 == 0x23u8 && (f & 0xE3 != 0 <==> (f & 0x80 != 0 || f & 0x40
            != 0 || f & 0x23 != 0))) by (bit_vector);
        if self.flags & Self::FLAG_COM_CRC_ERROR != 0 {
            Err(MmcError::Crc)
        } else if self.flags & Self::FLAG_ILLEGAL_COMMAND != 0 {
            Err(MmcError::IllegalCommand)
        } else if self.flags & (Self::FLAG_ERROR | Self::FLAG_FUNCTION_NUMBER
            | Self::FLAG_OUT_OF_RANGE) != 0 {
            Err(MmcError::Io)
        } else {
            Ok(())
        }
    }

    pub open spec fn is_error_spec(&self) -> bool {
        self.flags & 0xE3 != 0
    }
}

/// The error mask is the union of the five error flags.
proof fn lemma_r5_error_flags()
    ensures
        R5::ERROR_FLAGS == 0xE3,
{
    assert(0x80u8 | 0x40u8 | 0x20u8 | 0x02u8 | 0x01u8 == 0xE3u8) by (bit_vector);
}

impl Response for R5 {
    const CRC: bool = true;
    const LEN: ResponseLen = ResponseLen::R48;
    const BUSY: bool = false;

    fn from_words(buf: &[u32; 4]) -> (r: Self)
        ensures
            r.flags == (buf[0] / 0x100) % 0x100,
            r.data == buf[0] % 0x100,
    {
        let v = buf[0];
        assert(((v >> 8u32) & 0xFF) as u8 == (v / 0x100) % 0x100 && (v & 0xFF) as u8 == v % 0x100)
            by (bit_vector);
        R5 { flags: ((v >> 8) & 0xFF) as u8, data: (v & 0xFF) as u8 }
    }
}

/// Represents either an SD or EMMC card
pub trait Addressable: Sized + Clone {
    /// Associated register flavour
    type Ext;

    /// Is this a standard or high capacity peripheral?
    fn get_capacity(&self) -> CardCapacity;

    /// Size in bytes
    fn size(&self) -> u64;

    /// Whether the device supports `CMD23 (SET_BLOCK_COUNT)`.
    fn supports_cmd23(&self) -> bool;
}

/// The signalling scheme used on the SDMMC bus
#[non_exhaustive]
#[derive(Debug, Copy, Clone, PartialEq, Eq, Structural)]
pub enum Signalling {
    SDR12,
    SDR25,
    SDR50,
    SDR104,
    DDR50,
}

impl Default for Signalling {
    fn default() -> (r: Self)
        ensures
            r == Signalling::SDR12,
    {
        Signalling::SDR12
    }
}

} // verus!
