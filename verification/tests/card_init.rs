use sdio::common::{BlockSize, CardCapacity};
use sdio::device::{
    read_transfer, BlockTransfer, BusEvent, BusRequest, Control, HostCaps, RegisterData,
    RegisterRead, Reply, Step,
};
use sdio::emmc_init::{EmmcInit, EmmcPhase};
use sdio::sd::Card;
use sdio::sd_init::{SdInit, SdPhase};
use sdio::sdio_init::{FunctionsPhase, SdioFunctions, SdioInit, SdioPhase};
use sdio::{Addressable, BusWidth, MmcError, Signalling, R0, R1, R1b, R2, R3, R4, R5, R6, R7};

const BLOCK_SIZE: usize = 512;

fn host(max_frequency: u32, bus_width: BusWidth) -> HostCaps {
    HostCaps { max_frequency, bus_width, supports_1v8: false, supports_mmc: true }
}

/// A card that answers the way the simple SD card of the bus tests does.
struct SimSd {
    rca: u16,
    ocr: u32,
    cid: [u32; 4],
    csd: [u32; 4],
    scr: [u8; 8],
    sd_status: [u8; 64],
    switch_status: [u8; 64],
    last_set_blocklen: Option<u32>,
    width: BusWidth,
    freq: u32,
    requests: usize,
    init_idles: usize,
    cmd13_rca: Option<u16>,
    app_rcas: Vec<u16>,
}

impl SimSd {
    fn new() -> Self {
        let mut switch_status = [0u8; 64];
        switch_status[17] = 0b0000_0010;
        SimSd {
            rca: 0x1234,
            ocr: 0x40FF8000,
            cid: [0x12345678, 0x9ABCDEF0, 0xCAFEBABE, 0xDEADBEEF],
            csd: [0x400E0032, 0x5B590000, 0xEDCBA987, 0x00000000],
            scr: [0x02, 0x58, 0x00, 0x00, 0x01, 0x00, 0x00, 0x00],
            sd_status: [0u8; 64],
            switch_status,
            last_set_blocklen: None,
            width: BusWidth::W1,
            freq: 0,
            requests: 0,
            init_idles: 0,
            cmd13_rca: None,
            app_rcas: Vec::new(),
        }
    }

    fn answer(&mut self, req: &BusRequest) -> BusEvent {
        self.requests += 1;
        match req {
            BusRequest::InitIdle(hz) => {
                assert_eq!(*hz, 400_000);
                self.init_idles += 1;
                self.freq = *hz;
                self.width = BusWidth::W1;
                BusEvent::Completed
            }
            BusRequest::SetBus(w, hz) => {
                self.width = *w;
                self.freq = *hz;
                BusEvent::Completed
            }
            BusRequest::DelayMs(_) | BusRequest::DelayNs(_) => BusEvent::Completed,
            BusRequest::Send(c) => match c {
                Control::Idle(_) => BusEvent::Answered(Reply::R0(R0)),
                Control::SendIfCond(c) => BusEvent::Answered(Reply::R7(R7 {
                    voltage: c.voltage,
                    check_pattern: c.checkpattern,
                })),
                Control::AppCmd(c) => {
                    self.app_rcas.push(c.rca);
                    BusEvent::Answered(Reply::R1(R1 { status: 0x20 }))
                }
                Control::SdSendOpCond(_) => {
                    BusEvent::Answered(Reply::R3(R3 { ocr: self.ocr | (1 << 31) }))
                }
                Control::AllSendCid(_) => BusEvent::Answered(Reply::R2(R2 { words: self.cid })),
                Control::SendRelativeAddress(_) => {
                    BusEvent::Answered(Reply::R6(R6 { rca: self.rca, status: 0 }))
                }
                Control::SendCsd(_) => BusEvent::Answered(Reply::R2(R2 { words: self.csd })),
                Control::SelectCard(_) => BusEvent::Answered(Reply::R1b(R1b { status: 0 })),
                Control::SetBlockLength(c) => {
                    self.last_set_blocklen = Some(c.block_len);
                    BusEvent::Answered(Reply::R1(R1 { status: 0 }))
                }
                Control::SetBusWidth(_) => BusEvent::Answered(Reply::R1(R1 { status: 0 })),
                Control::CardStatus(c) => {
                    self.cmd13_rca = Some(c.rca);
                    BusEvent::Answered(Reply::R1(R1 { status: (4 << 9) | 0x100 }))
                }
                _ => BusEvent::Failed(MmcError::IllegalCommand),
            },
            BusRequest::ReadRegister(r) => match r {
                RegisterRead::Scr(_) => BusEvent::Read(RegisterData::Scr(self.scr)),
                RegisterRead::SdStatus(_) => BusEvent::Read(RegisterData::SdStatus(self.sd_status)),
                RegisterRead::SwitchFunction(_) => {
                    BusEvent::Read(RegisterData::SwitchStatus(self.switch_status))
                }
                RegisterRead::ExtCsd(_) => BusEvent::Failed(MmcError::IllegalCommand),
            },
        }
    }
}

fn run_sd(sim: &mut SimSd, freq: u32, caps: HostCaps) -> (SdInit, Result<(), MmcError>) {
    let (mut s, mut step) = SdInit::start(freq, caps);
    loop {
        match step {
            Step::Done(r) => return (s, r),
            Step::Request(req) => {
                let ev = sim.answer(&req);
                step = s.step(ev);
            }
        }
        assert!(sim.requests < 10_000, "initialization does not end");
    }
}

fn make_card(sim: &mut SimSd) -> Card {
    let (s, r) = run_sd(sim, 400_000, host(25_000_000, BusWidth::W1));
    r.expect("init failed");
    s.card
}

#[test]
fn test_init() {
    let mut sim = SimSd::new();
    let card = make_card(&mut sim);
    assert!(card.size() > 0);
}

#[test]
fn test_set_block_length_uses_byte_count() {
    // A 512-byte block read must issue CMD16 with arg 512 (the byte count),
    // not the BlockSize enum discriminant.
    let mut sim = SimSd::new();
    let card = make_card(&mut sim);

    let (cmd16, transfer) = read_transfer::<BLOCK_SIZE>(card.get_capacity(), 0, 1);
    assert_eq!(cmd16.block_len, BLOCK_SIZE as u32);
    assert!(matches!(transfer, BlockTransfer::ReadSingle(c) if c.addr == 0));
}

#[test]
fn test_sd_status_erase_size_combines_bytes() {
    // ERASE_SIZE is a 16-bit field split across two status bytes.
    let mut sim = SimSd::new();
    sim.sd_status[11] = 0x12;
    sim.sd_status[12] = 0x34;

    let card = make_card(&mut sim);
    assert_eq!(card.status.erase_size(), 0x1234);
}

#[test]
fn sd_init_learns_the_card() {
    let mut sim = SimSd::new();
    let (s, r) = run_sd(&mut sim, 400_000, host(25_000_000, BusWidth::W1));
    assert!(r.is_ok());
    assert_eq!(s.phase, SdPhase::Finished);
    // The bus keeps the published address; the card record keeps its default.
    assert_eq!(s.rca, 0x1234);
    assert_eq!(s.card.rca, 0);
    assert_eq!(s.card.ocr.0, 0xC0FF8000);
    assert_eq!(s.card.card_type, CardCapacity::HighCapacity);
    assert_eq!(s.card.scr.0, [0, 0, 0, 1, 0, 0, 0x58, 0x02]);
    // The card was configured at the target frequency, one bit wide.
    assert!(matches!(sim.width, BusWidth::W1));
    assert_eq!(sim.freq, 400_000);
    assert_eq!(sim.init_idles, 1);
}

#[test]
fn sd_init_caps_frequency_at_the_host() {
    let mut sim = SimSd::new();
    let (s, r) = run_sd(&mut sim, 100_000_000, host(10_000_000, BusWidth::W1));
    assert!(r.is_ok());
    assert_eq!(s.freq, 10_000_000);
    assert_eq!(sim.freq, 10_000_000);
}

#[test]
fn sd_init_refuses_an_eight_bit_host() {
    let (s, step) = SdInit::start(400_000, host(25_000_000, BusWidth::W8));
    assert_eq!(s.phase, SdPhase::Finished);
    assert!(matches!(step, Step::Done(Err(MmcError::Unsupported))));
}

#[test]
fn sd_init_four_bits_when_card_and_host_have_them() {
    let mut sim = SimSd::new();
    sim.scr[1] = 0x45; // bus widths 1 and 4
    let (s, r) = run_sd(&mut sim, 400_000, host(25_000_000, BusWidth::W4));
    assert!(r.is_ok());
    assert!(matches!(s.bus_width, BusWidth::W4));
    assert!(matches!(sim.width, BusWidth::W4));
}

#[test]
fn sd_init_stays_one_bit_without_card_support() {
    let mut sim = SimSd::new();
    let (s, r) = run_sd(&mut sim, 400_000, host(25_000_000, BusWidth::W4));
    assert!(r.is_ok());
    assert!(matches!(s.bus_width, BusWidth::W1));
    assert!(matches!(sim.width, BusWidth::W1));
}

#[test]
fn sd_init_high_speed_switch() {
    let mut sim = SimSd::new();
    // The card reports function 1 (SDR25) selected in group 1.
    sim.switch_status[16] = 0x01;
    let (s, r) = run_sd(&mut sim, 50_000_000, host(50_000_000, BusWidth::W1));
    assert!(r.is_ok());
    assert_eq!(s.signalling, Signalling::SDR25);
    assert_eq!(sim.freq, 50_000_000);
    // CMD13 carries the card record's address, which stays 0.
    assert_eq!(sim.cmd13_rca, Some(0));
    // Application commands after CMD3 carry the published address.
    assert_eq!(sim.app_rcas.last(), Some(&0x1234));
}

#[test]
fn sd_init_high_speed_refused_keeps_default_speed() {
    let mut sim = SimSd::new();
    // Group 1 selection stays at function 0 (SDR12).
    let (_s, r) = run_sd(&mut sim, 50_000_000, host(50_000_000, BusWidth::W1));
    assert!(r.is_ok());
    assert_eq!(sim.freq, 25_000_000);
}

#[test]
fn sd_init_rejects_a_wrong_check_pattern() {
    let (mut s, mut step) = SdInit::start(400_000, host(25_000_000, BusWidth::W1));
    // InitIdle, then CMD0
    step = s.step(BusEvent::Completed);
    assert!(matches!(step, Step::Request(BusRequest::Send(Control::Idle(_)))));
    step = s.step(BusEvent::Answered(Reply::R0(R0)));
    assert!(matches!(step, Step::Request(BusRequest::Send(Control::SendIfCond(_)))));
    step = s.step(BusEvent::Answered(Reply::R7(R7 { voltage: 1, check_pattern: 0x55 })));
    assert!(matches!(step, Step::Done(Err(MmcError::Unsupported))));
}

#[test]
fn sd_init_times_out_when_the_card_stays_busy() {
    let (mut s, mut step) = SdInit::start(400_000, host(25_000_000, BusWidth::W1));
    let mut polls = 0;
    loop {
        let ev = match &step {
            Step::Done(_) => break,
            Step::Request(BusRequest::Send(Control::SendIfCond(c))) => {
                BusEvent::Answered(Reply::R7(R7 { voltage: c.voltage, check_pattern: c.checkpattern }))
            }
            Step::Request(BusRequest::Send(Control::SdSendOpCond(_))) => {
                polls += 1;
                BusEvent::Answered(Reply::R3(R3 { ocr: 0x00FF_8000 }))
            }
            Step::Request(BusRequest::Send(_)) => BusEvent::Answered(Reply::R1(R1 { status: 0 })),
            Step::Request(_) => BusEvent::Completed,
        };
        step = s.step(ev);
    }
    assert!(matches!(step, Step::Done(Err(MmcError::Timeout))));
    assert_eq!(polls, 752);
}

#[test]
fn sd_init_passes_on_a_bus_failure() {
    let (mut s, _) = SdInit::start(400_000, host(25_000_000, BusWidth::W1));
    let step = s.step(BusEvent::Failed(MmcError::Io));
    assert!(matches!(step, Step::Done(Err(MmcError::Io))));
    assert_eq!(s.phase, SdPhase::Finished);
}

// ---------------------------------------------------------------------------
// eMMC
// ---------------------------------------------------------------------------

struct SimEmmc {
    busy_polls: u32,
    ext_csd: [u8; 512],
    switch_arg: Option<(u8, u8, u8)>,
    width: BusWidth,
    freq: u32,
}

impl SimEmmc {
    fn answer(&mut self, req: &BusRequest) -> BusEvent {
        match req {
            BusRequest::SetBus(w, hz) => {
                self.width = *w;
                self.freq = *hz;
                BusEvent::Completed
            }
            BusRequest::InitIdle(_) | BusRequest::DelayMs(_) | BusRequest::DelayNs(_) => {
                BusEvent::Completed
            }
            BusRequest::Send(Control::SendOpCond(c)) => {
                assert_eq!(c.ocr, 0x40FF_8000);
                if self.busy_polls > 0 {
                    self.busy_polls -= 1;
                    BusEvent::Answered(Reply::R3(R3 { ocr: 0x40FF_8080 }))
                } else {
                    BusEvent::Answered(Reply::R3(R3 { ocr: 0xC0FF_8080 }))
                }
            }
            BusRequest::Send(Control::AllSendCid(_)) => {
                BusEvent::Answered(Reply::R2(R2 { words: [0x1501_004D, 0x3847_3041, 0x4112_3456, 0x7800_5500] }))
            }
            BusRequest::Send(Control::SendCsd(_)) => {
                BusEvent::Answered(Reply::R2(R2 { words: [0xD02F_0132, 0x0F5A_83FF, 0xFFFF_FFFF, 0x8A40_0000] }))
            }
            BusRequest::Send(Control::Switch(c)) => {
                self.switch_arg = Some((c.access, c.index, c.value));
                BusEvent::Answered(Reply::R1b(R1b { status: 0 }))
            }
            BusRequest::Send(_) => BusEvent::Answered(Reply::R1(R1 { status: 0 })),
            BusRequest::ReadRegister(RegisterRead::ExtCsd(_)) => {
                BusEvent::Read(RegisterData::ExtCsd(self.ext_csd))
            }
            BusRequest::ReadRegister(_) => BusEvent::Failed(MmcError::IllegalCommand),
        }
    }
}

fn sim_emmc() -> SimEmmc {
    let mut ext_csd = [0u8; 512];
    // SEC_COUNT = 0x0074_0000 sectors (little-endian at 212)
    ext_csd[212] = 0x00;
    ext_csd[213] = 0x00;
    ext_csd[214] = 0x74;
    ext_csd[215] = 0x00;
    SimEmmc { busy_polls: 3, ext_csd, switch_arg: None, width: BusWidth::W1, freq: 0 }
}

fn run_emmc(sim: &mut SimEmmc, bs: BlockSize, freq: u32, caps: HostCaps) -> (EmmcInit, Result<(), MmcError>) {
    let (mut s, mut step) = EmmcInit::start(bs, freq, caps);
    let mut n = 0;
    loop {
        match step {
            Step::Done(r) => return (s, r),
            Step::Request(req) => {
                let ev = sim.answer(&req);
                step = s.step(ev);
            }
        }
        n += 1;
        assert!(n < 10_000);
    }
}

#[test]
fn emmc_init_reads_the_ext_csd() {
    let mut sim = sim_emmc();
    let (s, r) = run_emmc(&mut sim, BlockSize::B512, 52_000_000, host(26_000_000, BusWidth::W8));
    assert!(r.is_ok());
    assert_eq!(s.phase, EmmcPhase::Finished);
    assert_eq!(s.device.ocr.0, 0xC0FF_8080);
    assert_eq!(s.device.ocr.access_mode(), 0b10);
    assert_eq!(s.device.get_capacity(), CardCapacity::HighCapacity);
    assert_eq!(s.device.ext_csd.sector_count(), 0x0074_0000);
    assert_eq!(s.device.size(), 0x0074_0000u64 * 512);
    // BUS_WIDTH (index 183) set to the 8-bit code with a byte write.
    assert_eq!(sim.switch_arg, Some((0b11, 183, 2)));
    assert!(matches!(sim.width, BusWidth::W8));
    assert_eq!(sim.freq, 26_000_000);
}

#[test]
fn emmc_init_refuses_other_block_sizes() {
    let (s, step) = EmmcInit::start(BlockSize::B1024, 400_000, host(25_000_000, BusWidth::W1));
    assert_eq!(s.phase, EmmcPhase::Finished);
    assert!(matches!(step, Step::Done(Err(MmcError::Other))));
}

#[test]
fn emmc_init_times_out_when_the_device_stays_busy() {
    let mut sim = sim_emmc();
    sim.busy_polls = u32::MAX;
    let (_s, r) = run_emmc(&mut sim, BlockSize::B512, 400_000, host(25_000_000, BusWidth::W1));
    assert!(matches!(r, Err(MmcError::Timeout)));
}

// ---------------------------------------------------------------------------
// SDIO
// ---------------------------------------------------------------------------

struct SimSdio {
    regs: [u8; 0x800],
    inquiry_ocr: u32,
    busy_polls: u32,
    op_cond_windows: Vec<u16>,
    ready_after: u32,
    widths: Vec<(BusWidth, u32)>,
    error_at: Option<u32>,
}

impl SimSdio {
    fn new() -> Self {
        let mut regs = [0u8; 0x800];
        regs[0x08] = 0x00; // CARD_CAP: full speed card
        regs[0x07] = 0x80; // BUS_CTRL: card detect disabled, 1-bit
        regs[0x13] = 0x01; // HIGH_SPEED: SHS
        SimSdio {
            regs,
            inquiry_ocr: 0x2030_0000,
            busy_polls: 2,
            op_cond_windows: Vec::new(),
            ready_after: 2,
            widths: Vec::new(),
            error_at: None,
        }
    }

    fn answer(&mut self, req: &BusRequest) -> BusEvent {
        match req {
            BusRequest::SetBus(w, hz) => {
                self.widths.push((*w, *hz));
                BusEvent::Completed
            }
            BusRequest::InitIdle(_) | BusRequest::DelayMs(_) | BusRequest::DelayNs(_) => {
                BusEvent::Completed
            }
            BusRequest::Send(Control::IoSendOpCond(c)) => {
                assert!(!c.switch_to_1_8v_request);
                if c.voltage_window == 0 {
                    BusEvent::Answered(Reply::R4(R4 { ocr: self.inquiry_ocr }))
                } else {
                    self.op_cond_windows.push(c.voltage_window);
                    if self.busy_polls > 0 {
                        self.busy_polls -= 1;
                        BusEvent::Answered(Reply::R4(R4 { ocr: self.inquiry_ocr }))
                    } else {
                        BusEvent::Answered(Reply::R4(R4 { ocr: self.inquiry_ocr | 0x8000_0000 }))
                    }
                }
            }
            BusRequest::Send(Control::SendRelativeAddress(_)) => {
                BusEvent::Answered(Reply::R6(R6 { rca: 0x0001, status: 0x1E00 }))
            }
            BusRequest::Send(Control::SelectCard(c)) => {
                assert_eq!(c.rca, 0x0001);
                BusEvent::Answered(Reply::R1b(R1b { status: 0 }))
            }
            BusRequest::Send(Control::IoRwDirect(c)) => {
                assert_eq!(c.function, 0);
                let a = c.addr as usize;
                if Some(c.addr) == self.error_at {
                    return BusEvent::Answered(Reply::R5(R5 { flags: 0x02, data: 0 }));
                }
                if c.write {
                    self.regs[a] = c.data;
                    if a == 0x02 {
                        // IO_READY follows IO_ENABLE after a few reads
                        self.regs[0x03] = 0;
                    }
                } else if a == 0x03 {
                    if self.ready_after > 0 {
                        self.ready_after -= 1;
                    } else {
                        self.regs[0x03] = self.regs[0x02];
                    }
                }
                BusEvent::Answered(Reply::R5(R5 { flags: 0x10, data: self.regs[a] }))
            }
            BusRequest::Send(_) => BusEvent::Failed(MmcError::IllegalCommand),
            BusRequest::ReadRegister(_) => BusEvent::Failed(MmcError::IllegalCommand),
        }
    }
}

fn run_sdio(sim: &mut SimSdio, freq: u32, caps: HostCaps) -> (SdioInit, Result<(), MmcError>) {
    let (mut s, mut step) = SdioInit::start(freq, caps);
    let mut n = 0;
    loop {
        match step {
            Step::Done(r) => return (s, r),
            Step::Request(req) => {
                let ev = sim.answer(&req);
                step = s.step(ev);
            }
        }
        n += 1;
        assert!(n < 10_000);
    }
}

#[test]
fn sdio_init_powers_up_with_the_reported_window() {
    let mut sim = SimSdio::new();
    let (s, r) = run_sdio(&mut sim, 50_000_000, host(50_000_000, BusWidth::W4));
    assert!(r.is_ok());
    assert_eq!(s.phase, SdioPhase::Finished);
    // OCR bits 23:15 of 0x2030_0000 are 0x060
    assert_eq!(sim.op_cond_windows, vec![0x060, 0x060, 0x060]);
    assert_eq!(s.rca, 0x0001);
    assert_eq!(s.ocr.num_io_functions(), 2);
    // 4-bit width written to BUS_CTRL, keeping the other bits.
    assert_eq!(sim.regs[0x07], 0x82);
    // High speed enabled, then the full target frequency.
    assert_eq!(sim.regs[0x13], 0x03);
    assert_eq!(sim.widths.len(), 2);
    assert!(matches!(sim.widths[0], (BusWidth::W4, 25_000_000)));
    assert!(matches!(sim.widths[1], (BusWidth::W4, 50_000_000)));
}

#[test]
fn sdio_init_empty_window_falls_back_to_full_range() {
    let mut sim = SimSdio::new();
    sim.inquiry_ocr = 0x2000_0000;
    let (s, r) = run_sdio(&mut sim, 25_000_000, host(50_000_000, BusWidth::W1));
    assert!(r.is_ok());
    assert_eq!(s.window, 0x1FF);
    assert!(sim.op_cond_windows.iter().all(|w| *w == 0x1FF));
    // No high speed at 25 MHz, one bit wide.
    assert_eq!(sim.regs[0x13], 0x01);
    assert_eq!(sim.regs[0x07], 0x80);
    assert_eq!(sim.widths.len(), 1);
    assert!(matches!(sim.widths[0], (BusWidth::W1, 25_000_000)));
}

#[test]
fn sdio_init_low_speed_card_without_4bls_stays_one_bit() {
    let mut sim = SimSdio::new();
    sim.regs[0x08] = 0x40; // LSC without 4BLS
    sim.regs[0x07] = 0x03; // previous width bits are cleared
    let (s, r) = run_sdio(&mut sim, 10_000_000, host(50_000_000, BusWidth::W4));
    assert!(r.is_ok());
    assert!(matches!(s.bus_width, BusWidth::W1));
    assert_eq!(sim.regs[0x07], 0x00);
}

#[test]
fn sdio_init_stops_on_a_cmd52_error() {
    let mut sim = SimSdio::new();
    sim.error_at = Some(0x08);
    let (s, r) = run_sdio(&mut sim, 10_000_000, host(50_000_000, BusWidth::W4));
    assert!(matches!(r, Err(MmcError::Io)));
    assert_eq!(s.phase, SdioPhase::Finished);
}

fn run_functions(sim: &mut SimSdio, start: (SdioFunctions, Step)) -> Result<(), MmcError> {
    let (mut f, mut step) = start;
    let mut n = 0;
    loop {
        match step {
            Step::Done(r) => {
                assert_eq!(f.phase, FunctionsPhase::Finished);
                return r;
            }
            Step::Request(req) => {
                let ev = sim.answer(&req);
                step = f.step(ev);
            }
        }
        n += 1;
        assert!(n < 1000);
    }
}

#[test]
fn sdio_enable_functions_waits_for_ready() {
    let mut sim = SimSdio::new();
    sim.regs[0x02] = 0x04;
    let r = run_functions(&mut sim, SdioFunctions::enable(0x02));
    assert!(r.is_ok());
    assert_eq!(sim.regs[0x02], 0x06);
    assert_eq!(sim.regs[0x03] & 0x02, 0x02);
}

#[test]
fn sdio_enable_without_functions_does_nothing() {
    let (f, step) = SdioFunctions::enable(0x01);
    assert_eq!(f.phase, FunctionsPhase::Finished);
    assert!(matches!(step, Step::Done(Ok(()))));
}

#[test]
fn sdio_disable_functions_clears_their_bits() {
    let mut sim = SimSdio::new();
    sim.regs[0x02] = 0x0E;
    let r = run_functions(&mut sim, SdioFunctions::disable(0x06));
    assert!(r.is_ok());
    assert_eq!(sim.regs[0x02], 0x08);
}

#[test]
fn sdio_functions_pass_on_errors() {
    let mut sim = SimSdio::new();
    sim.error_at = Some(0x02);
    let r = run_functions(&mut sim, SdioFunctions::disable(0x02));
    assert!(matches!(r, Err(MmcError::Io)));
}
