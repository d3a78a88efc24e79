//! SDIO commands, registers and card functions.

use vstd::prelude::*;

use crate::common::{block_size, block_size_of, BlockSize, OCR};
use crate::{r5_error, BlockCommand, ByteCommand, Command, ControlCommand, MmcError, R4, R5};

verus! {

/// Type marker for SDIO-specific extensions.
#[derive(Clone, Copy, Default, Debug)]
pub struct SDIO;

/// CMD5 — IO_SEND_OP_COND
pub struct Cmd5 {
    pub switch_to_1_8v_request: bool,
    pub voltage_window: u16,
}

impl Command for Cmd5 {
    const INDEX: u8 = 5;
    type Resp<'a> = R4;

    /// The command index, 5.
    fn index(&self) -> (r: u8)
        ensures
            r == 5,
    {
        5
    }

    fn arg(&self) -> (r: u32)
        ensures
            r == (if self.switch_to_1_8v_request { 0x100_0000int } else { 0int }) + (
            self.voltage_window % 0x200) as int * 0x8000,
    {
        let s: u32 = if self.switch_to_1_8v_request { 1 } else { 0 };
        let w = self.voltage_window;
        let wm = (w & 0x1FF) as u32;
        assert(w & 0x1FF == w % 0x200) by (bit_vector);
        assert(s <= 1 && wm <= 0x1FF ==> (s << 24u32) | (wm << 15u32) == s * 0x100_0000 + wm * 0x8000)
            by (bit_vector);
        s << 24 | wm << 15
    }
}

impl ControlCommand for Cmd5 {}

/// CMD5: IO Op Command
///
/// * `switch_to_1_8v_request` - Switch to 1.8V signaling
/// * `voltage_window` - 9-bit bitfield that represents the voltage window
///   supported by the host. Use 0x1FF to indicate support for the full range of
///   voltages
pub fn io_send_op_cond(switch_to_1_8v_request: bool, voltage_window: u16) -> (r: Cmd5)
    ensures
        r.switch_to_1_8v_request == switch_to_1_8v_request,
        r.voltage_window == voltage_window,
{
    Cmd5 { switch_to_1_8v_request, voltage_window }
}

/// The CMD52 argument: R/W flag [31], function [30:28], RAW flag [27],
/// register address [25:9], write data [7:0] (zero on a read).
pub open spec fn cmd52_arg(write: bool, function: u8, raw: bool, addr: u32, data: u8) -> int {
    (if write { 0x8000_0000int } else { 0int }) + (function % 8) as int * 0x1000_0000 + (if raw {
        0x800_0000int
    } else {
        0int
    }) + (addr % 0x2_0000) as int * 0x200 + (if write { data as int } else { 0int })
}

/// CMD52 — IO_RW_DIRECT
pub struct Cmd52 {
    pub write: bool,
    pub function: u8,
    pub raw: bool,
    pub addr: u32,
    pub data: u8,
}

impl Command for Cmd52 {
    const INDEX: u8 = 52;
    type Resp<'a> = R5;

    /// The command index, 52.
    fn index(&self) -> (r: u8)
        ensures
            r == 52,
    {
        52
    }

    fn arg(&self) -> (r: u32)
        ensures
            r == cmd52_arg(self.write, self.function, self.raw, self.addr, self.data),
    {
        let w: u32 = if self.write { 1 } else { 0 };
        let f = self.function as u32;
        let raw: u32 = if self.raw { 1 } else { 0 };
        let a = self.addr;
        let d: u32 = if self.write { self.data as u32 } else { 0 };
        assert(w <= 1 && f <= 0xFF && raw <= 1 && d <= 0xFF ==> (w << 31u32) | ((f & 0x7) << 28u32) | (
        raw << 27u32) | ((a & 0x1FFFF) << 9u32) | d == w * 0x8000_0000 + (f % 8) * 0x1000_0000 + raw
            * 0x800_0000 + (a % 0x2_0000) * 0x200 + d) by (bit_vector);
        let rw = w << 31;
        let fn_num = (f & 0x7) << 28;
        let raw_bit = raw << 27;
        let addr = (a & 0x1FFFF) << 9;
        rw | fn_num | raw_bit | addr | d
    }
}

impl ControlCommand for Cmd52 {}

/// The CMD53 argument: R/W flag [31], function [30:28], block mode [27],
/// incrementing address [26], register address [25:9], count [8:0].
pub open spec fn cmd53_arg(
    write: bool,
    function: u8,
    block: bool,
    increment: bool,
    addr: u32,
    count: u32,
) -> int {
    (if write { 0x8000_0000int } else { 0int }) + (function % 8) as int * 0x1000_0000 + (if block {
        0x800_0000int
    } else {
        0int
    }) + (if increment { 0x400_0000int } else { 0int }) + (addr % 0x2_0000) as int * 0x200 + count
}

fn cmd53_arg_exec(write: bool, function: u8, block: bool, increment: bool, addr: u32, count: u32) -> (r:
    u32)
    requires
        count < 0x200,
    ensures
        r == cmd53_arg(write, function, block, increment, addr, count),
{
    let w: u32 = if write { 1 } else { 0 };
    let f = function as u32;
    let b: u32 = if block { 1 } else { 0 };
    let i: u32 = if increment { 1 } else { 0 };
    assert(w <= 1 && f <= 0xFF && b <= 1 && i <= 1 && count < 0x200 ==> (w << 31u32) | ((f & 0x7)
        << 28u32) | (b << 27u32) | (i << 26u32) | ((addr & 0x1FFFF) << 9u32) | count == w * 0x8000_0000
        + (f % 8) * 0x1000_0000 + b * 0x800_0000 + i * 0x400_0000 + (addr % 0x2_0000) * 0x200 + count)
        by (bit_vector);
    (w << 31) | ((f & 0x7) << 28) | (b << 27) | (i << 26) | ((addr & 0x1FFFF) << 9) | count
}

/// CMD53 — IO_RW_EXTENDED (byte mode read)
pub struct Cmd53ByteRead {
    pub function: u8,
    pub increment: bool,
    /// 17-bit register address
    pub addr: u32,
    /// Number of bytes
    pub len: usize,
}

impl Command for Cmd53ByteRead {
    const INDEX: u8 = 53;
    type Resp<'b> = R5;

    /// The command index, 53.
    fn index(&self) -> (r: u8)
        ensures
            r == 53,
    {
        53
    }

    fn arg(&self) -> (r: u32)
        ensures
            r == cmd53_arg(false, self.function, false, self.increment, self.addr, (self.len % 0x200) as u32),
    {
        let n = self.len;
        assert((n & 0x1FF) as u32 == n % 0x200 && (n & 0x1FF) < 0x200) by (bit_vector);
        cmd53_arg_exec(false, self.function, false, self.increment, self.addr, (n & 0x1FF) as u32)
    }
}

impl ByteCommand for Cmd53ByteRead {
    fn byte_count(&self) -> (r: usize)
        ensures
            r == self.len,
    {
        self.len
    }
}

/// CMD53 — IO_RW_EXTENDED (byte mode write)
pub struct Cmd53ByteWrite {
    pub function: u8,
    pub increment: bool,
    /// 17-bit register address
    pub addr: u32,
    /// Number of bytes
    pub len: usize,
}

impl Command for Cmd53ByteWrite {
    const INDEX: u8 = 53;
    type Resp<'b> = R5;

    /// The command index, 53.
    fn index(&self) -> (r: u8)
        ensures
            r == 53,
    {
        53
    }

    fn arg(&self) -> (r: u32)
        ensures
            r == cmd53_arg(true, self.function, false, self.increment, self.addr, (self.len % 0x200) as u32),
    {
        let n = self.len;
        assert((n & 0x1FF) as u32 == n % 0x200 && (n & 0x1FF) < 0x200) by (bit_vector);
        cmd53_arg_exec(true, self.function, false, self.increment, self.addr, (n & 0x1FF) as u32)
    }
}

impl ByteCommand for Cmd53ByteWrite {
    fn byte_count(&self) -> (r: usize)
        ensures
            r == self.len,
    {
        self.len
    }
}

/// CMD53 — IO_RW_EXTENDED (block mode read)
pub struct Cmd53BlockRead<const BLOCK_SIZE: usize> {
    pub function: u8,
    pub increment: bool,
    /// 17-bit register address
    pub addr: u32,
    /// Number of blocks
    pub blocks: u32,
}

impl<const BLOCK_SIZE: usize> Command for Cmd53BlockRead<BLOCK_SIZE> {
    const INDEX: u8 = 53;
    type Resp<'b> = R5;

    /// The command index, 53.
    fn index(&self) -> (r: u8)
        ensures
            r == 53,
    {
        53
    }

    fn arg(&self) -> (r: u32)
        ensures
            r == cmd53_arg(false, self.function, true, self.increment, self.addr, (self.blocks % 0x200) as u32),
    {
        let n = self.blocks;
        proof {
            crate::common::lemma_u32_low_masks(n);
        }
        cmd53_arg_exec(false, self.function, true, self.increment, self.addr, n & 0x1FF)
    }
}

impl<const BLOCK_SIZE: usize> BlockCommand for Cmd53BlockRead<BLOCK_SIZE> {
    fn block_size(&self) -> (r: BlockSize)
        ensures
            r == block_size_of(BLOCK_SIZE as nat),
    {
        block_size(BLOCK_SIZE)
    }

    fn block_count(&self) -> (r: u32)
        ensures
            r == self.blocks,
    {
        self.blocks
    }
}

/// CMD53 — IO_RW_EXTENDED (block mode write)
pub struct Cmd53BlockWrite<const BLOCK_SIZE: usize> {
    pub function: u8,
    pub increment: bool,
    /// 17-bit register address
    pub addr: u32,
    /// Number of blocks
    pub blocks: u32,
}

impl<const BLOCK_SIZE: usize> Command for Cmd53BlockWrite<BLOCK_SIZE> {
    const INDEX: u8 = 53;
    type Resp<'b> = R5;

    /// The command index, 53.
    fn index(&self) -> (r: u8)
        ensures
            r == 53,
    {
        53
    }

    fn arg(&self) -> (r: u32)
        ensures
            r == cmd53_arg(true, self.function, true, self.increment, self.addr, (self.blocks % 0x200) as u32),
    {
        let n = self.blocks;
        proof {
            crate::common::lemma_u32_low_masks(n);
        }
        cmd53_arg_exec(true, self.function, true, self.increment, self.addr, n & 0x1FF)
    }
}

impl<const BLOCK_SIZE: usize> BlockCommand for Cmd53BlockWrite<BLOCK_SIZE> {
    fn block_size(&self) -> (r: BlockSize)
        ensures
            r == block_size_of(BLOCK_SIZE as nat),
    {
        block_size(BLOCK_SIZE)
    }

    fn block_count(&self) -> (r: u32)
        ensures
            r == self.blocks,
    {
        self.blocks
    }
}

impl OCR<SDIO> {
    /// Number of I/O functions, OCR [30:28]
    pub fn num_io_functions(&self) -> (r: u8)
        ensures
            r == (self.0 / 0x1000_0000) % 8,
    {
        let v = self.0;
        assert(((v >> 28u32) & 0x7) as u8 == (v / 0x1000_0000) % 8) by (bit_vector);
        ((v >> 28) & 0x7) as u8
    }
}

// SDIO Card Common Control Register (CCCR) and Function Basic Register (FBR)
// address constants, as defined in the SDIO specification §6.9.

/// CCCR / SDIO revision.
pub const CCCR_REV: u32 = 0x00;

/// SD specification revision supported by the card.
pub const CCCR_SD_REV: u32 = 0x01;

/// I/O enable: bit N enables function N (bits 1–7).
pub const CCCR_IO_ENABLE: u32 = 0x02;

/// I/O ready: read to determine which functions are powered and ready.
pub const CCCR_IO_READY: u32 = 0x03;

/// Interrupt enable: master enable in bit 0; per-function in bits 1–7.
pub const CCCR_INT_ENABLE: u32 = 0x04;

/// Interrupt pending: read-only; indicates which functions have pending IRQs.
pub const CCCR_INT_PENDING: u32 = 0x05;

/// I/O abort: write bit N to abort function N; write bit 3 for card reset.
pub const CCCR_IO_ABORT: u32 = 0x06;

/// Bus interface control (bus width, card detect disable, continuous SPI).
pub const CCCR_BUS_CTRL: u32 = 0x07;

/// Card capability flags.
pub const CCCR_CARD_CAP: u32 = 0x08;

/// Common CIS pointer (3 bytes at 0x09–0x0B).
pub const CCCR_CIS_PTR: u32 = 0x09;

/// Bus suspend / enable function select (SDIO multi-block).
pub const CCCR_BUS_SUSPEND: u32 = 0x0C;

/// Function select.
pub const CCCR_FUNC_SEL: u32 = 0x0D;

/// Exec flags: which functions are currently executing.
pub const CCCR_EXEC_FLAGS: u32 = 0x0E;

/// Ready flags: which functions are ready to execute.
pub const CCCR_READY_FLAGS: u32 = 0x0F;

/// Function 0 block size (low byte; high byte at 0x11).
pub const CCCR_FN0_BLKSZ_LO: u32 = 0x10;

/// Function 0 block size, high byte.
pub const CCCR_FN0_BLKSZ_HI: u32 = 0x11;

/// Power control (SMPC / EMPC bits).
pub const CCCR_POWER_CTRL: u32 = 0x12;

/// Bus speed select / high-speed enable.
pub const CCCR_HIGH_SPEED: u32 = 0x13;

/// Bus width field mask (bits [1:0]).
pub const BUS_CTRL_WIDTH_MASK: u8 = 0x03;

/// 1-bit bus width.
pub const BUS_CTRL_WIDTH_1BIT: u8 = 0x00;

/// 4-bit bus width.
pub const BUS_CTRL_WIDTH_4BIT: u8 = 0x02;

/// 8-bit bus width (MMC only).
pub const BUS_CTRL_WIDTH_8BIT: u8 = 0x03;

/// Enable continuous SPI interrupt (SPI mode only).
pub const BUS_CTRL_ECSI: u8 = 0x20;

/// Supports continuous SPI interrupt (SPI mode only).
pub const BUS_CTRL_SCSI: u8 = 0x40;

/// Card detect disable.
pub const BUS_CTRL_CD_DISABLE: u8 = 0x80;

/// SDC: card supports CMD52 during data transfers.
pub const CARD_CAP_SDC: u8 = 0x01;

/// SMB: card supports multi-block CMD53.
pub const CARD_CAP_SMB: u8 = 0x02;

/// SRW: card supports read-wait.
pub const CARD_CAP_SRW: u8 = 0x04;

/// SBS: card supports bus control.
pub const CARD_CAP_SBS: u8 = 0x08;

/// S4MI: card supports 4-bit multi-block CMD53.
pub const CARD_CAP_S4MI: u8 = 0x10;

/// E4MI: enable 4-bit multi-block CMD53.
pub const CARD_CAP_E4MI: u8 = 0x20;

/// LSC: low-speed card (400 kHz only).
pub const CARD_CAP_LSC: u8 = 0x40;

/// 4BLS: 4-bit LSBL (low-speed card with 4-bit support).
pub const CARD_CAP_4BLS: u8 = 0x80;

/// SHS: card supports high-speed mode.
pub const HIGH_SPEED_SHS: u8 = 0x01;

/// EHS: enable high-speed mode (write 1 to activate 50 MHz operation).
pub const HIGH_SPEED_EHS: u8 = 0x02;

/// FBR offset: standard SDIO function interface code.
pub const FBR_FUNCTION_IF: u32 = 0x00;

/// FBR offset: extended interface code.
pub const FBR_EXT_IF: u32 = 0x01;

/// FBR offset: power selection.
pub const FBR_POWER_SEL: u32 = 0x02;

/// FBR offset: CIS pointer (3 bytes at +0x09 … +0x0B).
pub const FBR_CIS_PTR: u32 = 0x09;

/// FBR offset: CSA (Card Storage Area) pointer (3 bytes at +0x0C … +0x0E).
pub const FBR_CSA_PTR: u32 = 0x0C;

/// FBR offset: CSA data window.
pub const FBR_CSA_DATA: u32 = 0x0F;

/// FBR offset: I/O block size low byte.
pub const FBR_BLKSZ_LO: u32 = 0x10;

/// FBR offset: I/O block size high byte.
pub const FBR_BLKSZ_HI: u32 = 0x11;

/// FBR base for function N (1..7): each function's FBR block lives at `0x100 * N`.
#[inline]
pub fn fbr_base(function: u8) -> (r: u32)
    ensures
        r == function as int * 0x100,
{
    (function as u32) * 0x100
}

/// FBR standard function interface code register of a function.
#[inline]
pub fn fbr_std_func_if(function: u8) -> (r: u32)
    ensures
        r == function as int * 0x100,
{
    fbr_base(function)
}

/// FBR register at offset 0x02 of a function.
#[inline]
pub fn fbr_func_enable(function: u8) -> (r: u32)
    ensures
        r == function as int * 0x100 + 0x02,
{
    fbr_base(function) + 0x02
}

/// FBR block size register (low byte) of a function.
#[inline]
pub fn fbr_block_size_low(function: u8) -> (r: u32)
    ensures
        r == function as int * 0x100 + 0x10,
{
    fbr_base(function) + 0x10
}

/// FBR block size register (high byte) of a function.
#[inline]
pub fn fbr_block_size_high(function: u8) -> (r: u32)
    ensures
        r == function as int * 0x100 + 0x11,
{
    fbr_base(function) + 0x11
}

/// Every FBR register of function N lies in N's own 0x100-byte block: it
/// is at least `fbr_base(N)` and below `fbr_base(N + 1)`.
pub proof fn lemma_fbr_registers_stay_in_block(function: u8, offset: u32)
    requires
        offset < 0x100,
    ensures
        function as int * 0x100 <= function as int * 0x100 + offset < (function as int + 1) * 0x100,
{
}

/// CMD52 reading the register at `addr` of function `function`.
pub fn cmd52_read_command(function: u8, addr: u32) -> (r: Cmd52)
    ensures
        r == (Cmd52 { write: false, function, raw: false, addr, data: 0 }),
{
    Cmd52 { write: false, function, raw: false, addr, data: 0 }
}

/// CMD52 writing `data` to the register at `addr` of function `function`.
pub fn cmd52_write_command(function: u8, addr: u32, data: u8) -> (r: Cmd52)
    ensures
        r == (Cmd52 { write: true, function, raw: false, addr, data }),
{
    Cmd52 { write: true, function, raw: false, addr, data }
}

/// CMD52 writing `data` and reading the register back after the write
/// (read after write).
pub fn cmd52_write_read_command(function: u8, addr: u32, data: u8) -> (r: Cmd52)
    ensures
        r == (Cmd52 { write: true, function, raw: true, addr, data }),
{
    Cmd52 { write: true, function, raw: true, addr, data }
}

/// What a CMD52 came back with: the error its flags report, if any,
/// otherwise the register byte.
pub open spec fn cmd52_result(resp: R5) -> Result<u8, MmcError> {
    match r5_error(resp.flags) {
        Some(e) => Err(e),
        None => Ok(resp.data),
    }
}

/// The outcome of a CMD52 from its R5 response.
pub fn cmd52_outcome(resp: &R5) -> (r: Result<u8, MmcError>)
    ensures
        r == cmd52_result(*resp),
        r is Ok <==> !resp.is_error_spec(),
{
    let f = resp.flags;
    assert(f & 0xE3 != 0 <==> (f & 0x80 != 0 || f & 0x40 != 0 || f & 0x23 != 0)) by (bit_vector);
    match resp.to_result() {
        Err(e) => Err(e),
        Ok(()) => Ok(resp.data),
    }
}

/// Functions 1 to 7 named in a function mask: bit 0 stands for the
/// common registers and enables nothing.
pub open spec fn names_functions(mask: u8) -> bool {
    mask & 0xFE != 0
}

/// The IO_ENABLE value that disables the functions of `mask`: their bits
/// cleared, the others kept.
pub fn disabled_functions(current: u8, mask: u8) -> (r: u8)
    ensures
        r == current & !mask,
        forall|i: u8| i < 8 ==> ((r >> i) & 1 == 1 <==> ((current >> i) & 1 == 1 && (mask >> i) & 1
            == 0)),
{
    assert(forall|i: u8| i < 8 ==> (((current & !mask) >> i) & 1 == 1 <==> ((current >> i) & 1 == 1
        && (mask >> i) & 1 == 0))) by (bit_vector);
    current & !mask
}

/// The INT_ENABLE value for the functions of `mask`: their bits and the
/// master enable (bit 0).
pub fn interrupt_enable_value(mask: u8) -> (r: u8)
    ensures
        r == mask | 1,
        r & 1 == 1,
        r & 0xFE == mask & 0xFE,
{
    assert((mask | 1) & 1 == 1 && (mask | 1) & 0xFE == mask & 0xFE) by (bit_vector);
    mask | 0x01
}

/// The CMD52 that enables interrupts of the functions of `mask`.
pub fn enable_interrupts_command(mask: u8) -> (r: Cmd52)
    ensures
        r == (Cmd52 { write: true, function: 0, raw: false, addr: CCCR_INT_ENABLE, data: mask | 1 }),
{
    cmd52_write_command(0, CCCR_INT_ENABLE, interrupt_enable_value(mask))
}

/// The two CMD52 that set the I/O block size of `function` to `size`:
/// the low byte to the FBR's BLKSZ_LO, then the high byte to BLKSZ_HI.
pub fn set_block_size_commands(function: u8, size: u16) -> (r: (Cmd52, Cmd52))
    ensures
        r.0 == (Cmd52 {
            write: true,
            function: 0,
            raw: false,
            addr: (function as int * 0x100 + 0x10) as u32,
            data: (size % 0x100) as u8,
        }),
        r.1 == (Cmd52 {
            write: true,
            function: 0,
            raw: false,
            addr: (function as int * 0x100 + 0x11) as u32,
            data: (size / 0x100) as u8,
        }),
        r.0.data as int + r.1.data as int * 0x100 == size,
{
    let base = fbr_base(function);
    assert((size & 0xFF) as u8 == size % 0x100 && (size >> 8u16) as u8 == size / 0x100) by (bit_vector);
    let lo = cmd52_write_command(0, base + FBR_BLKSZ_LO, (size & 0xFF) as u8);
    let hi = cmd52_write_command(0, base + FBR_BLKSZ_HI, (size >> 8) as u8);
    (lo, hi)
}

/// Whether IO_READY reports every function of `mask` ready.
pub fn functions_ready(ready: u8, mask: u8) -> (r: bool)
    ensures
        r == (ready & mask == mask),
{
    ready & mask == mask
}

/// A CMD53 transfer of `len` bytes split in two: whole blocks first, the
/// remaining bytes after them, each part only where it is not empty.
pub struct Cmd53Split {
    /// Number of whole blocks, and their first address
    pub blocks: Option<(u32, u32)>,
    /// Number of remaining bytes, and their first address
    pub bytes: Option<(usize, u32)>,
}

/// How `cmd53_read` and `cmd53_write` split a transfer of `len` bytes at
/// `addr` with blocks of `block_size` bytes: `len / block_size` blocks at
/// `addr`, then `len % block_size` bytes at the address past the blocks.
/// The address always increments.
pub fn cmd53_split(block_size: usize, addr: u32, len: usize) -> (r: Cmd53Split)
    requires
        block_size > 0,
        addr + (len - len % block_size) <= u32::MAX,
    ensures
        len / block_size > 0 ==> r.blocks == Some(((len / block_size) as u32, addr)),
        len / block_size == 0 ==> r.blocks is None,
        len % block_size > 0 ==> r.bytes == Some(
            ((len % block_size) as usize, (addr + (len - len % block_size)) as u32),
        ),
        len % block_size == 0 ==> r.bytes is None,
        // The two parts cover the transfer exactly.
        (match r.blocks {
            Some((n, _)) => n * block_size,
            None => 0,
        }) + (match r.bytes {
            Some((m, _)) => m as int,
            None => 0,
        }) == len,
{
    let byte_part = len % block_size;
    assert(byte_part <= len) by (nonlinear_arith)
        requires
            block_size > 0,
            byte_part == len % block_size,
    ;
    let block_part = len - byte_part;
    assert(block_part == (len / block_size) * block_size) by (nonlinear_arith)
        requires
            block_size > 0,
            byte_part == len % block_size,
            block_part == len - byte_part,
    ;
    assert(len / block_size <= block_part) by (nonlinear_arith)
        requires
            block_size > 0,
            block_part == (len / block_size) * block_size,
    ;
    let blocks = if block_part > 0 {
        assert(len / block_size > 0) by (nonlinear_arith)
            requires
                block_part > 0,
                block_part == (len / block_size) * block_size,
        ;
        Some(((len / block_size) as u32, addr))
    } else {
        assert(len / block_size == 0) by (nonlinear_arith)
            requires
                block_size > 0,
                block_part == 0,
                block_part == (len / block_size) * block_size,
        ;
        None
    };
    let bytes = if byte_part > 0 {
        Some((byte_part, addr + block_part as u32))
    } else {
        None
    };
    Cmd53Split { blocks, bytes }
}

/// SDIO Response
pub struct SdioResponse {
    pub data: u8,
    pub flags: u8,
}

impl From<R5> for SdioResponse {
    fn from(resp: R5) -> (r: Self) {
        SdioResponse { data: resp.data, flags: resp.flags }
    }
}

impl vstd::std_specs::convert::FromSpecImpl<R5> for SdioResponse {
    open spec fn obeys_from_spec() -> bool {
        true
    }

    open spec fn from_spec(resp: R5) -> Self {
        SdioResponse { data: resp.data, flags: resp.flags }
    }
}

} // verus!
