//! SD cards in SPI mode: command framing, CRC7, response packing and the
//! byte-polling rules of the SPI protocol.

use vstd::prelude::*;

use crate::{MmcError, ResponseLen};

verus! {

/// Trait that allows setting SPI freq.
pub trait SetHz {
    fn set_hz(&mut self, hz: u32);
}

/// Simple SPI-backed MMC/SD bus in SPI mode: the SPI bus, the chip select
/// pin and a delay provider.
pub struct SpiMmcBus<SPI, CS, DLY> {
    pub spi: SPI,
    pub cs: CS,
    pub delay: DLY,
}

impl<SPI, CS, DLY> SpiMmcBus<SPI, CS, DLY> {
    pub fn new(spi: SPI, cs: CS, delay: DLY) -> (r: Self)
        ensures
            r.spi == spi,
            r.cs == cs,
            r.delay == delay,
    {
        Self { spi, cs, delay }
    }
}

/// One step of the CRC7 shift register (polynomial x^7 + x^3 + 1): shift the
/// register left, and feed back when the incoming bit differs from the bit
/// shifted out.
pub open spec fn crc7_step(crc: u8, bit: bool) -> u8 {
    let c = (crc << 1u8) as u8;
    if bit != (c & 0x80 != 0) {
        c ^ 0x09
    } else {
        c
    }
}

/// Bit `i` (0 = most significant) of a 40-bit message.
pub open spec fn message_bit(msg: u64, i: nat) -> bool {
    (msg >> (39 - i) as u64) & 1 == 1
}

/// The CRC7 register after the first `n` bits of a 40-bit message.
pub open spec fn crc7_register(msg: u64, n: nat) -> u8
    decreases n,
{
    if n == 0 {
        0
    } else {
        crc7_step(crc7_register(msg, (n - 1) as nat), message_bit(msg, (n - 1) as nat))
    }
}

/// The CRC byte that ends an SPI command frame: the CRC7 of the 40-bit
/// message (command byte, then argument), shifted left, with the end bit set.
pub open spec fn crc7_of(msg: u64) -> u8 {
    ((crc7_register(msg, 40) << 1u8) | 1) as u8
}

/// Compute CRC7 over 40 bits: [cmd | arg], and append the end bit.
pub fn crc7(msg: u64) -> (r: u8)
    requires
        msg < 0x100_0000_0000,
    ensures
        r == crc7_of(msg),
{
    let mut crc: u8 = 0;
    let mut i: u64 = 0;
    while i < 40
        invariant
            i <= 40,
            crc == crc7_register(msg, i as nat),
        decreases 40 - i,
    {
        let bit = (msg >> (39 - i)) & 1 == 1;
        let c = crc << 1;
        crc = if bit != (c & 0x80 != 0) {
            c ^ 0x09
        } else {
            c
        };
        i += 1;
    }
    (crc << 1) | 1
}

/// The 40-bit message of a command: `0b01` start bits and the 6-bit index,
/// then the 32-bit argument.
pub open spec fn command_message(index: u8, arg: u32) -> u64 {
    (((0x40 | (index & 0x3F)) as u64) * 0x1_0000_0000 + arg as u64) as u64
}

/// The six bytes of an SPI command frame:
/// `[0b01xxxxxx, arg(4, most significant first), crc]`.
pub open spec fn command_frame_spec(index: u8, arg: u32) -> Seq<u8> {
    seq![
        0x40 | (index & 0x3F),
        (arg >> 24u32) as u8,
        (arg >> 16u32) as u8,
        (arg >> 8u32) as u8,
        arg as u8,
        crc7_of(command_message(index, arg)),
    ]
}

/// Builds the frame that sends command `index` with argument `arg`.
pub fn command_frame(index: u8, arg: u32) -> (r: [u8; 6])
    ensures
        r@ == command_frame_spec(index, arg),
{
    let idx = index & 0x3F;
    let first = 0x40 | idx;
    assert((first as u64) * 0x1_0000_0000 + (arg as u64) < 0x100_0000_0000) by (nonlinear_arith)
        requires
            first <= 0xFF,
            arg <= 0xFFFF_FFFF,
    ;
    let msg = (first as u64) * 0x1_0000_0000 + arg as u64;
    let crc = crc7(msg);
    let r = [first, (arg >> 24) as u8, (arg >> 16) as u8, (arg >> 8) as u8, arg as u8, crc];
    assert(r@ =~= command_frame_spec(index, arg));
    r
}

/// Number of bytes that follow the R1 byte in an SPI response.
pub open spec fn response_data_len(len: ResponseLen) -> nat {
    match len {
        ResponseLen::Zero => 0,
        ResponseLen::R48 => 4,
        ResponseLen::R136 => 15,
    }
}

/// Bytes that follow the R1 byte: none, 4 (R1 + 4 data bytes) or 15 (R1 +
/// 15 data bytes).
pub fn response_data_bytes(len: ResponseLen) -> (r: usize)
    ensures
        r == response_data_len(len),
{
    match len {
        ResponseLen::Zero => 0,
        ResponseLen::R48 => 4,
        ResponseLen::R136 => 15,
    }
}

/// The big-endian value of up to four bytes.
pub open spec fn be_fold(s: Seq<u8>) -> nat
    decreases s.len(),
{
    if s.len() == 0 {
        0
    } else {
        be_fold(s.drop_last()) * 256 + s.last() as nat
    }
}

/// Up to four bytes fold into a 32-bit value.
proof fn lemma_be_fold_bound(s: Seq<u8>)
    requires
        s.len() <= 4,
    ensures
        be_fold(s) < vstd::arithmetic::power2::pow2(8 * s.len()),
    decreases s.len(),
{
    vstd::arithmetic::power2::lemma2_to64();
    if s.len() > 0 {
        lemma_be_fold_bound(s.drop_last());
        let k = (s.len() - 1) as nat;
        vstd::arithmetic::power2::lemma_pow2_adds(8 * k, 8);
        assert(be_fold(s.drop_last()) * 256 + s.last() < vstd::arithmetic::power2::pow2(8 * k) * 256)
            by (nonlinear_arith)
            requires
                be_fold(s.drop_last()) < vstd::arithmetic::power2::pow2(8 * k),
                s.last() < 256,
        ;
    }
}

/// Chunk `i` (4 bytes, the last one possibly shorter) of a byte sequence.
pub open spec fn chunk(raw: Seq<u8>, i: int) -> Seq<u8> {
    raw.subrange(4 * i, if 4 * i + 4 <= raw.len() { 4 * i + 4 } else { raw.len() as int })
}

/// Packs the bytes of a response into four words, most significant byte
/// first, four bytes per word; words past the end of the bytes are zero.
pub fn pack_response(raw: &[u8]) -> (r: [u32; 4])
    requires
        raw@.len() <= 16,
    ensures
        forall|i: int| 0 <= i < 4 && 4 * i < raw@.len() ==> r@[i] == be_fold(chunk(raw@, i)),
        forall|i: int| 0 <= i < 4 && 4 * i >= raw@.len() ==> r@[i] == 0,
{
    let mut words: [u32; 4] = [0u32; 4];
    let n = raw.len();
    let mut i: usize = 0;
    while i < 4
        invariant
            n == raw@.len(),
            n <= 16,
            i <= 4,
            forall|k: int| 0 <= k < i && 4 * k < n ==> words@[k] == be_fold(chunk(raw@, k)),
            forall|k: int| 0 <= k < 4 && (k >= i || 4 * k >= n) ==> words@[k] == 0,
        decreases 4 - i,
    {
        if 4 * i < n {
            let end = if 4 * i + 4 <= n {
                4 * i + 4
            } else {
                n
            };
            let mut w: u32 = 0;
            let mut j = 4 * i;
            while j < end
                invariant
                    n == raw@.len(),
                    4 * i <= j <= end,
                    end <= n,
                    end - 4 * i <= 4,
                    w as nat == be_fold(raw@.subrange(4 * i as int, j as int)),
                decreases end - j,
            {
                let ghost s = raw@.subrange(4 * i as int, j as int);
                let ghost s1 = raw@.subrange(4 * i as int, j + 1);
                assert(s1.drop_last() =~= s);
                proof {
                    lemma_be_fold_bound(s1);
                    lemma_be_fold_bound(s);
                    vstd::arithmetic::power2::lemma2_to64();
                    if s.len() < 3 {
                        vstd::arithmetic::power2::lemma_pow2_strictly_increases(
                            8 * s.len(),
                            24,
                        );
                    }
                }
                assert(w < 0x100_0000);
                assert(w * 256 + raw@[j as int] < 0x1_0000_0000);
                w = w * 256 + raw[j] as u32;
                j += 1;
            }
            words[i] = w;
        }
        i += 1;
    }
    words
}

/// The number of bytes a data block read takes from the card for a buffer
/// of `requested` bytes: at most one 512-byte block.
pub fn spi_block_read_len(requested: usize) -> (r: usize)
    ensures
        r == if requested <= 512 { requested } else { 512 },
{
    if requested <= 512 {
        requested
    } else {
        512
    }
}

/// A data response token accepts a written block when its status bits
/// (bits 4:0) read `0b00101`.
pub fn write_accepted(token: u8) -> (r: bool)
    ensures
        r == (token % 32 == 5),
{
    proof {
        crate::common::lemma_u8_low_masks(token);
    }
    (token & 0x1F) == 0x05
}

/// What an SPI host waits for while clocking bytes out of the card.
#[derive(Debug, Clone, Copy, PartialEq, Eq)]
pub enum SpiWait {
    /// The R1 byte of a response: the first byte that is not 0xFF, within 8 bytes.
    Response,
    /// The end of busy: a byte 0xFF, within 65536 bytes.
    NotBusy,
    /// The start token 0xFE of a data block, within 65536 bytes.
    DataToken,
}

/// What to do after a byte read while waiting.
#[derive(Debug)]
pub enum PollOutcome {
    /// The awaited byte has come.
    Found,
    /// Read another byte.
    Again,
    /// Give up with this error.
    GiveUp(MmcError),
}

/// How many bytes a host reads while waiting before it gives up.
pub open spec fn poll_limit(wait: SpiWait) -> nat {
    match wait {
        SpiWait::Response => 8,
        SpiWait::NotBusy => 65536,
        SpiWait::DataToken => 65536,
    }
}

/// Whether `byte` is what the wait is for.
pub open spec fn poll_found(wait: SpiWait, byte: u8) -> bool {
    match wait {
        SpiWait::Response => byte != 0xFF,
        SpiWait::NotBusy => byte == 0xFF,
        SpiWait::DataToken => byte == 0xFE,
    }
}

/// How long each wait lasts: a byte read as attempt `a` (counting from 0)
/// is the last one of a wait for a data token or for the end of busy
/// exactly when `a` is 65535 or more (65536 bytes in all), and of a wait
/// for a response exactly when `a` is 7 or more (8 bytes).
pub proof fn lemma_poll_wait_lengths(a: nat)
    ensures
        a + 1 >= poll_limit(SpiWait::DataToken) <==> a >= 65535,
        a + 1 >= poll_limit(SpiWait::NotBusy) <==> a >= 65535,
        a + 1 >= poll_limit(SpiWait::Response) <==> a >= 7,
{
}

/// Decides, after reading `byte` as the read number `attempt` (counting
/// from 0) of a wait, whether the wait is over, goes on, or has failed
/// (`Timeout` for a response or a data token, `Busy` for the end of busy).
pub fn poll(wait: SpiWait, byte: u8, attempt: u32) -> (r: PollOutcome)
    ensures
        poll_found(wait, byte) ==> r == PollOutcome::Found,
        !poll_found(wait, byte) && attempt + 1 < poll_limit(wait) ==> r == PollOutcome::Again,
        !poll_found(wait, byte) && attempt + 1 >= poll_limit(wait) ==> r == PollOutcome::GiveUp(
            if wait == SpiWait::NotBusy {
                MmcError::Busy
            } else {
                MmcError::Timeout
            },
        ),        // A data token or the end of busy is awaited for 65536 bytes, a
        // response for 8: the wait goes on before that, whatever came.
        wait == SpiWait::DataToken && byte != 0xFE && attempt < 65535 ==> r == PollOutcome::Again,
        wait == SpiWait::NotBusy && byte != 0xFF && attempt < 65535 ==> r == PollOutcome::Again,
        wait == SpiWait::Response && byte == 0xFF && attempt < 7 ==> r == PollOutcome::Again,
        r matches PollOutcome::GiveUp(_) ==> attempt >= (if wait == SpiWait::Response {
            7u32
        } else {
            65535u32
        }),
{
    match wait {
        SpiWait::Response => {
            if byte != 0xFF {
                PollOutcome::Found
            } else if attempt < 7 {
                PollOutcome::Again
            } else {
                PollOutcome::GiveUp(MmcError::Timeout)
            }
        },
        SpiWait::NotBusy => {
            if byte == 0xFF {
                PollOutcome::Found
            } else if attempt < 65535 {
                PollOutcome::Again
            } else {
                PollOutcome::GiveUp(MmcError::Busy)
            }
        },
        SpiWait::DataToken => {
            if byte == 0xFE {
                PollOutcome::Found
            } else if attempt < 65535 {
                PollOutcome::Again
            } else {
                PollOutcome::GiveUp(MmcError::Timeout)
            }
        },
    }
}

} // verus!
