//! The vocabulary shared by the card drivers: what a driver asks of the
//! bus, what the bus answers, and the command sequences of block transfers.
//!
//! A driver never touches the hardware. It is a state machine: each step
//! takes what the bus reported for the previous request and returns the
//! next request, or the outcome of the whole operation. The caller performs
//! each request on its bus and reports back.

use vstd::prelude::*;

use crate::common::{
    block_size, block_size_len, block_size_of, CardCapacity, Cmd0, Cmd13, Cmd16, Cmd17, Cmd18, Cmd2,
    Cmd24, Cmd25, Cmd55, Cmd7, Cmd9,
};
use crate::{emmc, sd, sdio};
use crate::{BusWidth, MmcError, R0, R1, R1b, R2, R3, R4, R5, R6, R7};

verus! {

/// What the host controller can do, as its driver reports it.
#[derive(Debug, Clone, Copy)]
pub struct HostCaps {
    /// The maximum bus frequency in Hz.
    pub max_frequency: u32,
    /// The widest data bus.
    pub bus_width: BusWidth,
    /// Whether the host can switch the signalling to 1.8 V.
    pub supports_1v8: bool,
    /// Whether the host runs the native MMC/SD protocol (otherwise SPI mode).
    pub supports_mmc: bool,
}

/// A command without data transfer that a driver asks the bus to send.
pub enum Control {
    Idle(Cmd0),
    AllSendCid(Cmd2),
    SelectCard(Cmd7),
    SendCsd(Cmd9),
    CardStatus(Cmd13),
    SetBlockLength(Cmd16),
    AppCmd(Cmd55),
    SendRelativeAddress(sd::Cmd3),
    SendIfCond(sd::Cmd8),
    VoltageSwitch(sd::Cmd11),
    ReadOcr(sd::Cmd58),
    SetBusWidth(sd::Acmd6),
    SdSendOpCond(sd::Acmd41),
    SendOpCond(emmc::Cmd1),
    AssignRelativeAddress(emmc::Cmd3),
    Switch(emmc::Cmd6),
    IoSendOpCond(sdio::Cmd5),
    IoRwDirect(sdio::Cmd52),
}

/// A block read of a card register whose contents the driver keeps.
pub enum RegisterRead {
    /// ACMD51, the 8-byte SCR
    Scr(sd::Acmd51),
    /// ACMD13, the 64-byte SD status
    SdStatus(sd::Acmd13),
    /// CMD6, the 64-byte switch function status
    SwitchFunction(sd::Cmd6),
    /// CMD8, the 512-byte EXT_CSD
    ExtCsd(emmc::Cmd8),
}

/// One operation on the bus.
pub enum BusRequest {
    /// Initialize the bus in one-bit mode at 3.3 V and the given frequency.
    InitIdle(u32),
    /// Send a command without data.
    Send(Control),
    /// Read a register block from the card.
    ReadRegister(RegisterRead),
    /// Configure bus width and frequency.
    SetBus(BusWidth, u32),
    /// Wait this many milliseconds.
    DelayMs(u32),
    /// Wait this many nanoseconds.
    DelayNs(u32),
}

/// The response that a command came back with.
pub enum Reply {
    R0(R0),
    R1(R1),
    R1b(R1b),
    R2(R2),
    R3(R3),
    R4(R4),
    R5(R5),
    R6(R6),
    R7(R7),
}

/// The bytes of a register block, in the order the card sent them.
pub enum RegisterData {
    Scr([u8; 8]),
    SdStatus([u8; 64]),
    SwitchStatus([u8; 64]),
    ExtCsd([u8; 512]),
}

/// What the bus reports for a request.
pub enum BusEvent {
    /// An `InitIdle`, `SetBus` or delay completed.
    Completed,
    /// A `Send` came back with this response.
    Answered(Reply),
    /// A `ReadRegister` came back with these bytes.
    Read(RegisterData),
    /// The bus failed the request.
    Failed(MmcError),
}

/// What a driver wants next.
pub enum Step {
    /// Perform this request and report what happened.
    Request(BusRequest),
    /// The operation is over, with this outcome.
    Done(Result<(), MmcError>),
}

/// The block data command of a block device transfer.
pub enum BlockTransfer<const BLOCK_SIZE: usize> {
    ReadSingle(Cmd17<BLOCK_SIZE>),
    ReadMultiple(Cmd18<BLOCK_SIZE>),
    WriteSingle(Cmd24<BLOCK_SIZE>),
    WriteMultiple(Cmd25<BLOCK_SIZE>),
}

/// The address that a card is given for block `block_idx`: standard
/// capacity (SDSC) cards are byte addressed, high capacity cards block
/// addressed.
pub open spec fn card_address_spec(capacity: CardCapacity, block_idx: u32, block_size: nat) -> int {
    match capacity {
        CardCapacity::StandardCapacity => block_idx * block_size,
        _ => block_idx as int,
    }
}

/// Whether block `block_idx` has a card address that fits in 32 bits.
pub open spec fn card_address_fits(capacity: CardCapacity, block_idx: u32, block_size: nat) -> bool {
    card_address_spec(capacity, block_idx, block_size) <= u32::MAX
}

/// The card address of block `block_idx`.
pub fn card_address<const BLOCK_SIZE: usize>(capacity: CardCapacity, block_idx: u32) -> (r: u32)
    requires
        card_address_fits(capacity, block_idx, BLOCK_SIZE as nat),
    ensures
        r == card_address_spec(capacity, block_idx, BLOCK_SIZE as nat),
{
    match capacity {
        CardCapacity::StandardCapacity => {
            if block_idx == 0 {
                assert(block_idx * BLOCK_SIZE == 0) by (nonlinear_arith)
                    requires
                        block_idx == 0,
                ;
                0
            } else {
                assert(BLOCK_SIZE <= u32::MAX) by (nonlinear_arith)
                    requires
                        block_idx * BLOCK_SIZE <= u32::MAX,
                        block_idx >= 1,
                ;
                let r = block_idx * (BLOCK_SIZE as u32);
                assert(r == block_idx * BLOCK_SIZE);
                r
            }
        },
        _ => block_idx,
    }
}

/// The card address of block `block_idx`, or `None` where it does not fit
/// in 32 bits.
pub fn checked_card_address<const BLOCK_SIZE: usize>(capacity: CardCapacity, block_idx: u32) -> (r:
    Option<u32>)
    ensures
        r is Some <==> card_address_fits(capacity, block_idx, BLOCK_SIZE as nat),
        r matches Some(a) ==> a == card_address_spec(capacity, block_idx, BLOCK_SIZE as nat),
{
    match capacity {
        CardCapacity::StandardCapacity => {
            if BLOCK_SIZE > u32::MAX as usize {
                if block_idx == 0 {
                    assert(block_idx * BLOCK_SIZE == 0) by (nonlinear_arith)
                        requires
                            block_idx == 0,
                    ;
                    Some(0)
                } else {
                    assert(block_idx * BLOCK_SIZE > u32::MAX) by (nonlinear_arith)
                        requires
                            block_idx >= 1,
                            BLOCK_SIZE > u32::MAX,
                    ;
                    None
                }
            } else {
                match block_idx.checked_mul(BLOCK_SIZE as u32) {
                    Some(a) => Some(a),
                    None => None,
                }
            }
        },
        _ => Some(block_idx),
    }
}

/// The CMD16 that precedes every block transfer: the block length in
/// bytes (0 for a block size the protocol does not name).
pub fn set_block_length_for<const BLOCK_SIZE: usize>() -> (r: Cmd16)
    ensures
        r.block_len == block_size_len(block_size_of(BLOCK_SIZE as nat)),
{
    let len = block_size(BLOCK_SIZE).len();
    assert(len <= 16384) by {
        crate::common::lemma_small_pow2();
    }
    Cmd16 { block_len: len as u32 }
}

/// Reading `count` blocks from block `block_idx`: CMD16 with the block
/// length, then CMD17 for one block or CMD18 for any other count, at the
/// card address of the block.
pub fn read_transfer<const BLOCK_SIZE: usize>(
    capacity: CardCapacity,
    block_idx: u32,
    count: usize,
) -> (r: (Cmd16, BlockTransfer<BLOCK_SIZE>))
    requires
        BLOCK_SIZE % 4 == 0,
        card_address_fits(capacity, block_idx, BLOCK_SIZE as nat),
    ensures
        r.0.block_len == block_size_len(block_size_of(BLOCK_SIZE as nat)),
        count == 1 ==> r.1 == BlockTransfer::ReadSingle(
            Cmd17::<BLOCK_SIZE> { addr: card_address_spec(capacity, block_idx, BLOCK_SIZE as nat) as u32 },
        ),
        count != 1 ==> r.1 == BlockTransfer::ReadMultiple(
            Cmd18::<BLOCK_SIZE> {
                addr: card_address_spec(capacity, block_idx, BLOCK_SIZE as nat) as u32,
                blocks: count as u32,
            },
        ),
{
    let addr = card_address::<BLOCK_SIZE>(capacity, block_idx);
    let cmd = if count == 1 {
        BlockTransfer::ReadSingle(crate::common::read_single_block(addr))
    } else {
        BlockTransfer::ReadMultiple(crate::common::read_multiple_blocks(addr, count as u32))
    };
    (set_block_length_for::<BLOCK_SIZE>(), cmd)
}

/// Writing `count` blocks at block `block_idx`: CMD16 with the block
/// length, then CMD24 for one block or CMD25 for any other count, at the
/// card address of the block.
pub fn write_transfer<const BLOCK_SIZE: usize>(
    capacity: CardCapacity,
    block_idx: u32,
    count: usize,
) -> (r: (Cmd16, BlockTransfer<BLOCK_SIZE>))
    requires
        BLOCK_SIZE % 4 == 0,
        card_address_fits(capacity, block_idx, BLOCK_SIZE as nat),
    ensures
        r.0.block_len == block_size_len(block_size_of(BLOCK_SIZE as nat)),
        count == 1 ==> r.1 == BlockTransfer::WriteSingle(
            Cmd24::<BLOCK_SIZE> { addr: card_address_spec(capacity, block_idx, BLOCK_SIZE as nat) as u32 },
        ),
        count != 1 ==> r.1 == BlockTransfer::WriteMultiple(
            Cmd25::<BLOCK_SIZE> {
                addr: card_address_spec(capacity, block_idx, BLOCK_SIZE as nat) as u32,
                blocks: count as u32,
            },
        ),
{
    let addr = card_address::<BLOCK_SIZE>(capacity, block_idx);
    let cmd = if count == 1 {
        BlockTransfer::WriteSingle(crate::common::write_single_block(addr))
    } else {
        BlockTransfer::WriteMultiple(crate::common::write_multiple_blocks(addr, count as u32))
    };
    (set_block_length_for::<BLOCK_SIZE>(), cmd)
}

/// Block addresses count blocks: a standard capacity card is given the
/// byte address `block_idx * block_size`, a high capacity card the block
/// index itself.
pub proof fn lemma_block_addressing(capacity: CardCapacity, block_idx: u32, n: nat)
    ensures
        capacity == CardCapacity::StandardCapacity ==> card_address_spec(capacity, block_idx, n)
            == block_idx * n,
        capacity == CardCapacity::HighCapacity ==> card_address_spec(capacity, block_idx, n)
            == block_idx,
{
}

/// The prefix CMD55 of an application command for the card `rca`, if the
/// command is one.
pub fn app_cmd_prefix(app_cmd: Option<u16>) -> (r: Option<Cmd55>)
    ensures
        app_cmd is None ==> r is None,
        app_cmd matches Some(rca) ==> r == Some(Cmd55 { rca }),
{
    match app_cmd {
        Some(rca) => Some(crate::common::app_cmd(rca)),
        None => None,
    }
}

/// CMD7 selects the card `rca`; with `None` it deselects all cards (RCA 0).
pub fn select_card_command(rca: Option<u16>) -> (r: Cmd7)
    ensures
        rca matches Some(a) ==> r.rca == a,
        rca is None ==> r.rca == 0,
{
    match rca {
        Some(a) => crate::common::select_card(a),
        None => crate::common::select_card(0),
    }
}

/// Deselecting all cards draws no response, so a timeout then counts as
/// success; any other outcome is passed on.
pub fn select_card_result(rca: Option<u16>, result: Result<(), MmcError>) -> (r: Result<
    (),
    MmcError,
>)
    ensures
        (rca is None && (result matches Err(MmcError::Timeout))) ==> r is Ok,
        !(rca is None && (result matches Err(MmcError::Timeout))) ==> r == result,
{
    match result {
        Err(MmcError::Timeout) => {
            if rca.is_none() {
                Ok(())
            } else {
                Err(MmcError::Timeout)
            }
        },
        other => other,
    }
}

} // verus!
