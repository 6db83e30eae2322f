//! Flash controller (FTFC) driver: page read, page program and page erase
//! with a single outstanding operation and deferred completion.

use vstd::prelude::*;
use crate::deferred_call::DeferredCall;
use crate::error::ErrorCode;
use crate::ftfc_model;
use crate::ftfc_model::{BusWrite, FtfcDevice, FtfcModel, CONFIG_SECTOR};

verus! {

/// Bytes in one flash page, the unit of erase and program.
pub const PAGE_SIZE: usize = 4096;

/// Pages in the program flash array.
pub const NUM_PAGES: usize = 128;

/// Bytes in the program flash array: `NUM_PAGES` pages of `PAGE_SIZE` bytes.
pub const FLASH_SIZE: usize = 524288;

/// FSTAT bit 0: the last command finished with an error.
pub const FSTAT_MGSTAT0: u8 = 0x01;

/// FSTAT bit 4: protection violation, sticky, write 1 to clear.
pub const FSTAT_FPVIOL: u8 = 0x10;

/// FSTAT bit 5: access error, sticky, write 1 to clear.
pub const FSTAT_ACCERR: u8 = 0x20;

/// FSTAT bit 6: read collision, sticky, write 1 to clear.
pub const FSTAT_RDCOLERR: u8 = 0x40;

/// FSTAT bit 7: command complete. Reads 1 while the controller is ready;
/// writing 1 starts the command held in the FCCOB registers.
pub const FSTAT_CCIF: u8 = 0x80;

/// The three sticky error flags of FSTAT together.
pub const FSTAT_ERRORS: u8 = 0x70;

/// FCNFG bit 5: erase-all request.
pub const FCNFG_ERSAREQ: u8 = 0x20;

/// FCNFG bit 7: command-complete interrupt enable.
pub const FCNFG_CCIE: u8 = 0x80;

/// Opcode that erases the flash sector holding the command address.
pub const CMD_ERASE_SECTOR: u8 = 0x09;

/// Opcode that erases the reserved configuration sector.
pub const CMD_ERASE_CONFIG: u8 = 0x49;

/// System address of the reserved configuration sector.
pub const CONFIG_BASE: u32 = 0x10001000;

/// The register file of the flash controller, in the order of the memory map.
#[derive(Clone, Copy, Debug, PartialEq, Eq, Structural)]
pub struct FtfcRegisters {
    pub fstat: u8,
    pub fcnfg: u8,
    pub fsec: u8,
    pub fopt: u8,
    pub fccob3: u8,
    pub fccob2: u8,
    pub fccob1: u8,
    pub fccob0: u8,
    pub fccob7: u8,
    pub fccob6: u8,
    pub fccob5: u8,
    pub fccob4: u8,
    pub fccobb: u8,
    pub fccoba: u8,
    pub fccob9: u8,
    pub fccob8: u8,
    pub fprot3: u8,
    pub fprot2: u8,
    pub fprot1: u8,
    pub fprot0: u8,
    pub feprot: u8,
    pub fdprot: u8,
}

/// The error that a status byte reports: access error first, then
/// protection violation, then read collision.
pub open spec fn status_error(fstat: u8) -> Option<ErrorCode> {
    if fstat & FSTAT_ACCERR != 0 {
        Some(ErrorCode::AccessViolation)
    } else if fstat & FSTAT_FPVIOL != 0 {
        Some(ErrorCode::ProtectionViolation)
    } else if fstat & FSTAT_RDCOLERR != 0 {
        Some(ErrorCode::ReadCollision)
    } else {
        None
    }
}

/// The 24-bit address held in three command bytes, most significant first.
pub open spec fn address_of_bytes(high: u8, mid: u8, low: u8) -> u32 {
    (high as u32) << 16 | (mid as u32) << 8 | (low as u32)
}

impl FtfcRegisters {
    /// The controller reports that no command is running.
    pub open spec fn ready(self) -> bool {
        self.fstat & FSTAT_CCIF != 0
    }

    /// The address that the command registers hold.
    pub open spec fn command_address(self) -> u32 {
        address_of_bytes(self.fccob1, self.fccob2, self.fccob3)
    }

    /// Reads the command-complete flag.
    pub fn is_ready(&self) -> (ready: bool)
        ensures
            ready == self.ready(),
    {
        self.fstat & FSTAT_CCIF != 0
    }

    /// Decodes the sticky error flags of the status register.
    pub fn error(&self) -> (error: Option<ErrorCode>)
        ensures
            error == status_error(self.fstat),
    {
        if self.fstat & FSTAT_ACCERR != 0 {
            Some(ErrorCode::AccessViolation)
        } else if self.fstat & FSTAT_FPVIOL != 0 {
            Some(ErrorCode::ProtectionViolation)
        } else if self.fstat & FSTAT_RDCOLERR != 0 {
            Some(ErrorCode::ReadCollision)
        } else {
            None
        }
    }

    /// Reads back the address held in FCCOB1..FCCOB3.
    pub fn address(&self) -> (address: u32)
        ensures
            address == self.command_address(),
    {
        (self.fccob1 as u32) << 16 | (self.fccob2 as u32) << 8 | (self.fccob3 as u32)
    }
}

/// One page worth of bytes, handed to the driver with a request and handed
/// back with the matching completion.
#[derive(Debug, PartialEq, Eq)]
pub struct FtfcPage(pub [u8; PAGE_SIZE]);

impl View for FtfcPage {
    type V = Seq<u8>;

    open spec fn view(&self) -> Seq<u8> {
        self.0@
    }
}

impl Default for FtfcPage {
    fn default() -> (page: Self)
        ensures
            page@ == Seq::new(PAGE_SIZE as nat, |i: int| 0u8),
    {
        let page = FtfcPage([0u8; PAGE_SIZE]);
        assert(page@ =~= Seq::new(PAGE_SIZE as nat, |i: int| 0u8));
        page
    }
}

impl FtfcPage {
    /// The byte at `idx`.
    pub fn index(&self, idx: usize) -> (byte: &u8)
        requires
            idx < PAGE_SIZE,
        ensures
            *byte == self@[idx as int],
    {
        &self.0[idx]
    }

    /// A place for the byte at `idx`.
    pub fn index_mut(&mut self, idx: usize) -> (byte: &mut u8)
        requires
            idx < PAGE_SIZE,
        ensures
            *byte == old(self)@[idx as int],
            final(self)@ == old(self)@.update(idx as int, *final(byte)),
    {
        &mut self.0[idx]
    }

    /// The whole page as a byte slice, for bulk copies.
    pub fn as_mut(&mut self) -> (bytes: &mut [u8])
        ensures
            bytes@ == old(self)@,
            final(self)@ == final(bytes)@,
    {
        &mut self.0
    }
}

/// What the driver is doing.
#[derive(Clone, Copy, Debug, PartialEq, Eq, Structural)]
pub enum FlashState {
    /// No operation is outstanding.
    Ready,
    /// A page read awaits its completion.
    Read,
    /// A page write awaits its completion.
    Write,
    /// A page erase awaits its completion.
    Erase,
}

/// A completion that the driver owes its client: which callback to make,
/// and with what.
#[derive(Debug, PartialEq, Eq)]
pub enum Completion {
    /// `read_complete`: the page that was read, in the caller's buffer.
    Read(FtfcPage, Result<(), ErrorCode>),
    /// `write_complete`: the caller's buffer, back after the write.
    Write(FtfcPage, Result<(), ErrorCode>),
    /// `erase_complete`.
    Erase(Result<(), ErrorCode>),
}

/// A completion with the page given by its bytes.
pub enum CompletionView {
    Read(Seq<u8>, Result<(), ErrorCode>),
    Write(Seq<u8>, Result<(), ErrorCode>),
    Erase(Result<(), ErrorCode>),
}

impl View for Completion {
    type V = CompletionView;

    open spec fn view(&self) -> CompletionView {
        match *self {
            Completion::Read(page, result) => CompletionView::Read(page@, result),
            Completion::Write(page, result) => CompletionView::Write(page@, result),
            Completion::Erase(result) => CompletionView::Erase(result),
        }
    }
}

/// Byte `index` (1, 2 or 3) of the command registers for `address`: address
/// bits 23:16, 15:8 and 7:0.
pub open spec fn address_byte(address: u32, index: int) -> u8 {
    if index == 1 {
        ((address >> 16) & 0xFF) as u8
    } else if index == 2 {
        ((address >> 8) & 0xFF) as u8
    } else {
        (address & 0xFF) as u8
    }
}

/// The four writes that load the command registers: the opcode to command
/// byte 0, then the address to command bytes 1 to 3, most significant byte
/// first.
pub open spec fn load_writes(opcode: u8, address: u32) -> Seq<BusWrite> {
    seq![
        BusWrite::CommandByte(0, opcode),
        BusWrite::CommandByte(1, address_byte(address, 1)),
        BusWrite::CommandByte(2, address_byte(address, 2)),
        BusWrite::CommandByte(3, address_byte(address, 3)),
    ]
}

/// The six writes that issue a command, in their order: 1 to each of the
/// three error flags, the four writes that load the command registers, and
/// 1 to the command-complete flag.
pub open spec fn command_writes(opcode: u8, address: u32) -> Seq<BusWrite> {
    seq![BusWrite::Status(FSTAT_ERRORS)] + load_writes(opcode, address) + seq![
        BusWrite::Status(FSTAT_CCIF),
    ]
}

/// The writes that program `bytes` over page `page`, in their order: one
/// for each of the first `count` bytes, at rising addresses.
pub open spec fn program_writes(page: int, bytes: Seq<u8>, count: int) -> Seq<BusWrite> {
    Seq::new(
        count as nat,
        |i: int| BusWrite::Program((page * PAGE_SIZE + i) as usize, bytes[i]),
    )
}

/// The module when the six writes of a command have reached it and it has
/// not yet acted on the last one: the error flags are cleared and the
/// command registers hold `opcode` and `address`.
pub open spec fn command_loaded(device: FtfcModel, opcode: u8, address: u32) -> FtfcModel {
    FtfcModel {
        regs: FtfcRegisters {
            fstat: device.regs.fstat & !FSTAT_ERRORS,
            fccob0: opcode,
            fccob1: address_byte(address, 1),
            fccob2: address_byte(address, 2),
            fccob3: address_byte(address, 3),
            ..device.regs
        },
        writes: device.writes + command_writes(opcode, address),
        ..device
    }
}

/// The idle module after the command `opcode` at `address` was issued and
/// has run to its end.
pub open spec fn after_command(device: FtfcModel, opcode: u8, address: u32) -> FtfcModel {
    command_loaded(device, opcode, address).launched().settled()
}

/// What a finished command reports: the error that the status flags hold.
pub open spec fn command_result(device: FtfcModel) -> Result<(), ErrorCode> {
    match status_error(device.regs.fstat) {
        Some(error) => Err(error),
        None => Ok(()),
    }
}

/// The byte address of page `page`.
pub open spec fn page_address(page: int) -> u32 {
    (page * PAGE_SIZE) as u32
}

/// The driver's state as a value.
pub struct FtfcView {
    /// The flash module.
    pub device: FtfcModel,
    /// The bytes of the buffer that the driver holds, if it holds one.
    pub buffer: Option<Seq<u8>>,
    /// The operation in flight.
    pub state: FlashState,
    /// The driver's slot with the dispatcher.
    pub deferred_call: DeferredCall,
}

impl FtfcView {
    /// The driver holds a buffer exactly while a read or a write is in
    /// flight, and the module is in a state it can be in.
    pub open spec fn inv(self) -> bool {
        &&& self.device.wf()
        &&& (self.buffer is Some <==> (self.state == FlashState::Read || self.state
            == FlashState::Write))
        &&& (self.buffer matches Some(bytes) ==> bytes.len() == PAGE_SIZE)
    }

    /// `inv`, and no command is running in the module.
    pub open spec fn wf(self) -> bool {
        self.inv() && self.device.idle()
    }

    /// Why a request for page `page` is turned down before anything is
    /// done: `Busy` while an operation is in flight, else `InvalidSize` for
    /// a page outside the array. `None` where the request is taken on.
    pub open spec fn refusal(self, page: int) -> Option<ErrorCode> {
        if self.state != FlashState::Ready {
            Some(ErrorCode::Busy)
        } else if !(0 <= page < NUM_PAGES) {
            Some(ErrorCode::InvalidSize)
        } else {
            None
        }
    }

    /// The driver after it accepted a read of page `page`: it holds the
    /// caller's buffer, filled with the page as the array has it, and its
    /// completion is armed.
    pub open spec fn read_requested(self, page: int) -> FtfcView {
        FtfcView {
            buffer: Some(ftfc_model::page_of(self.device.memory, page)),
            state: FlashState::Read,
            deferred_call: self.deferred_call.armed(),
            ..self
        }
    }

    /// The driver after an erase of page `page` was asked of it in the
    /// `Ready` state: the erase command has run; if the module flagged no
    /// error the erase is in flight and its completion armed, else the
    /// driver is still `Ready`.
    pub open spec fn erase_requested(self, page: int) -> FtfcView {
        let device = after_command(self.device, CMD_ERASE_SECTOR, page_address(page));
        if command_result(device) is Ok {
            FtfcView {
                device,
                state: FlashState::Erase,
                deferred_call: self.deferred_call.armed(),
                ..self
            }
        } else {
            FtfcView { device, ..self }
        }
    }

    /// The driver after a write of `bytes` to page `page` was asked of it in
    /// the `Ready` state: the page was erased first; if the module flagged
    /// no error, each byte was programmed, the driver holds the caller's
    /// buffer and its completion is armed; else nothing was programmed and
    /// the driver is still `Ready`.
    pub open spec fn write_requested(self, page: int, bytes: Seq<u8>) -> FtfcView {
        let device = after_command(self.device, CMD_ERASE_SECTOR, page_address(page));
        if command_result(device) is Ok {
            FtfcView {
                device: FtfcModel {
                    memory: ftfc_model::with_page(
                        device.memory,
                        page,
                        ftfc_model::programmed_page(
                            ftfc_model::page_of(device.memory, page),
                            bytes,
                        ),
                    ),
                    writes: device.writes + program_writes(page, bytes, PAGE_SIZE as int),
                    ..device
                },
                buffer: Some(bytes),
                state: FlashState::Write,
                deferred_call: self.deferred_call.armed(),
            }
        } else {
            FtfcView { device, ..self }
        }
    }

    /// The completion that the driver owes its client.
    pub open spec fn completion(self) -> Option<CompletionView> {
        match self.state {
            FlashState::Ready => None,
            FlashState::Read => Some(CompletionView::Read(self.buffer.unwrap(), Ok(()))),
            FlashState::Write => Some(CompletionView::Write(self.buffer.unwrap(), Ok(()))),
            FlashState::Erase => Some(CompletionView::Erase(Ok(()))),
        }
    }

    /// The driver after it handed out its completion: `Ready`, and without
    /// a buffer.
    pub open spec fn completed(self) -> FtfcView {
        FtfcView { buffer: None, state: FlashState::Ready, ..self }
    }

    /// The driver after the dispatcher serviced its slot.
    pub open spec fn serviced(self) -> FtfcView {
        if self.deferred_call.due() {
            FtfcView { deferred_call: self.deferred_call.serviced(), ..self.completed() }
        } else {
            FtfcView { deferred_call: self.deferred_call.serviced(), ..self }
        }
    }

    /// The driver right after construction, around a module fresh from
    /// reset.
    pub open spec fn initial(latency: nat) -> FtfcView {
        FtfcView {
            device: FtfcModel::blank(latency),
            buffer: None,
            state: FlashState::Ready,
            deferred_call: DeferredCall { registered: false, pending: false },
        }
    }
}

/// The flash controller driver.
pub struct Ftfc {
    device: FtfcDevice,
    buffer: Option<FtfcPage>,
    state: FlashState,
    deferred_call: DeferredCall,
}

impl View for Ftfc {
    type V = FtfcView;

    closed spec fn view(&self) -> FtfcView {
        FtfcView {
            device: self.device@,
            buffer: match self.buffer {
                Some(page) => Some(page@),
                None => None,
            },
            state: self.state,
            deferred_call: self.deferred_call,
        }
    }
}

/// Polls that a command of a freshly built driver's module takes.
pub const COMMAND_POLLS: u32 = 4;

impl Ftfc {
    /// See `FtfcView::inv`.
    pub open spec fn inv(&self) -> bool {
        self@.inv()
    }

    /// See `FtfcView::wf`.
    pub open spec fn wf(&self) -> bool {
        self@.wf()
    }

    /// A driver in the `Ready` state around a module fresh from reset.
    pub fn new() -> (ftfc: Self)
        ensures
            ftfc.wf(),
            ftfc@ == FtfcView::initial(COMMAND_POLLS as nat),
    {
        Ftfc {
            device: FtfcDevice::new(COMMAND_POLLS),
            buffer: None,
            state: FlashState::Ready,
            deferred_call: DeferredCall::new(),
        }
    }

    /// A driver in the `Ready` state around `device`, once the command
    /// that the module may still be running has come to its end.
    pub fn with_device(device: FtfcDevice) -> (ftfc: Self)
        requires
            device.wf(),
        ensures
            ftfc.wf(),
            ftfc@ == (FtfcView {
                device: device@.settled(),
                ..FtfcView::initial(device@.latency)
            }),
    {
        let mut ftfc = Ftfc {
            device,
            buffer: None,
            state: FlashState::Ready,
            deferred_call: DeferredCall::new(),
        };
        ftfc.wait_for_command_complete();
        ftfc
    }

    /// Hands out the writes that the driver made to the module since they
    /// were last taken, oldest first.
    pub fn take_bus_writes(&mut self) -> (writes: Vec<BusWrite>)
        requires
            old(self).inv(),
        ensures
            final(self).inv(),
            writes@ == old(self)@.device.writes,
            final(self)@ == (FtfcView { device: old(self)@.device.unlogged(), ..old(self)@ }),
            old(self).wf() ==> final(self).wf(),
    {
        self.device.take_writes()
    }

    /// The operation in flight.
    pub fn state(&self) -> (state: FlashState)
        ensures
            state == self@.state,
    {
        self.state
    }

    /// The module that the driver drives.
    pub fn device(&self) -> (device: &FtfcDevice)
        ensures
            device@ == self@.device,
    {
        &self.device
    }
}

/// Facts about the status byte once its error flags were cleared.
proof fn lemma_cleared_status(fstat: u8)
    by (bit_vector)
    ensures
        (fstat & !FSTAT_ERRORS) & FSTAT_ACCERR == 0,
        (fstat & !FSTAT_ERRORS) & FSTAT_FPVIOL == 0,
        (fstat & !FSTAT_ERRORS) & FSTAT_RDCOLERR == 0,
        (fstat & !FSTAT_ERRORS) & (FSTAT_ACCERR | FSTAT_FPVIOL) == 0,
        ((fstat & !FSTAT_ERRORS) | FSTAT_FPVIOL) & FSTAT_ACCERR == 0,
        ((fstat & !FSTAT_ERRORS) | FSTAT_FPVIOL) & FSTAT_FPVIOL != 0,
        ((fstat & !FSTAT_ERRORS) | FSTAT_ACCERR) & FSTAT_ACCERR != 0,
        fstat & FSTAT_CCIF != 0 ==> ((fstat & !FSTAT_ERRORS) & !FSTAT_CCIF) | FSTAT_CCIF == fstat
            & !FSTAT_ERRORS,
        fstat & FSTAT_CCIF != 0 ==> (fstat & !FSTAT_ERRORS) & FSTAT_CCIF != 0,
        fstat & FSTAT_CCIF != 0 ==> ((fstat & !FSTAT_ERRORS) | FSTAT_FPVIOL) & FSTAT_CCIF != 0,
{
}

/// Facts about the two values that the driver writes to the status register.
proof fn lemma_status_writes(fstat: u8)
    by (bit_vector)
    ensures
        fstat & !(FSTAT_ERRORS & FSTAT_ERRORS) == fstat & !FSTAT_ERRORS,
        FSTAT_ERRORS & FSTAT_CCIF == 0,
        fstat & !(FSTAT_CCIF & FSTAT_ERRORS) == fstat,
        FSTAT_CCIF & FSTAT_CCIF != 0,
{
}

/// The three address bytes of the command registers give back every
/// address of 24 bits.
pub proof fn lemma_address_bytes(address: u32)
    by (bit_vector)
    requires
        address < 0x1000000,
    ensures
        address_of_bytes(
            ((address >> 16) & 0xFF) as u8,
            ((address >> 8) & 0xFF) as u8,
            (address & 0xFF) as u8,
        ) == address,
{
}

/// What an erase command for page `page` does to an idle module: on a
/// protected page it raises the protection flag and erases nothing; on any
/// other page it erases that page and nothing else, and reports no error.
pub proof fn lemma_erase_command(device: FtfcModel, page: int)
    requires
        device.wf(),
        device.idle(),
        0 <= page < NUM_PAGES,
    ensures
        ({
            let loaded = command_loaded(device, CMD_ERASE_SECTOR, page_address(page));
            let after = after_command(device, CMD_ERASE_SECTOR, page_address(page));
            &&& after.wf()
            &&& after.idle()
            &&& ftfc_model::page_protected(device.regs, page) ==> after == loaded.flagged(
                FSTAT_FPVIOL,
            ) && command_result(after) == Err::<(), ErrorCode>(ErrorCode::ProtectionViolation)
            &&& !ftfc_model::page_protected(device.regs, page) ==> after == (FtfcModel {
                memory: ftfc_model::with_page(device.memory, page, ftfc_model::erased_page()),
                ..loaded
            }) && command_result(after) == Ok::<(), ErrorCode>(())
        }),
{
    let address = page_address(page);
    let loaded = command_loaded(device, CMD_ERASE_SECTOR, address);
    lemma_address_bytes(address);
    lemma_cleared_status(device.regs.fstat);
    assert(loaded.regs.command_address() == address);
    assert(address as int / PAGE_SIZE as int == page);
    assert(address as int % PAGE_SIZE as int == 0);
    assert(ftfc_model::page_protected(loaded.regs, page) == ftfc_model::page_protected(
        device.regs,
        page,
    ));
    let after = after_command(device, CMD_ERASE_SECTOR, address);
    if ftfc_model::page_protected(device.regs, page) {
        assert(loaded.launched() == loaded.flagged(FSTAT_FPVIOL));
        assert(after == loaded.flagged(FSTAT_FPVIOL));
        assert(after.wf());
        assert(command_result(after) == Err::<(), ErrorCode>(ErrorCode::ProtectionViolation));
    } else {
        let erased = FtfcModel {
            memory: ftfc_model::with_page(device.memory, page, ftfc_model::erased_page()),
            ..loaded
        };
        assert(loaded.launched() == erased.started());
        assert(erased.started().settled() == erased);
        assert(after == erased);
        assert(after.wf());
        assert(command_result(after) == Ok::<(), ErrorCode>(()));
    }
}

impl Ftfc {
    /// Clears the three sticky error flags of the status register.
    pub fn clear_fstat_errors(&mut self)
        requires
            old(self).inv(),
        ensures
            final(self).inv(),
            final(self)@ == (FtfcView {
                device: old(self)@.device.logged(BusWrite::Status(FSTAT_ERRORS)).with_fstat(
                    old(self)@.device.regs.fstat & !FSTAT_ERRORS,
                ),
                ..old(self)@
            }),
            status_error(final(self)@.device.regs.fstat) is None,
    {
        proof {
            lemma_status_writes(self@.device.regs.fstat);
            lemma_cleared_status(self@.device.regs.fstat);
        }
        self.device.write_fstat(FSTAT_ERRORS);
    }

    /// Polls the status register once and tells whether the module is
    /// ready for a command.
    pub fn is_ready(&mut self) -> (ready: bool)
        requires
            old(self).inv(),
        ensures
            final(self).inv(),
            final(self)@ == (FtfcView { device: old(self)@.device.polled(), ..old(self)@ }),
            ready == final(self)@.device.regs.ready(),
    {
        self.device.read_fstat() & FSTAT_CCIF != 0
    }

    /// Enables the command-complete interrupt.
    pub fn configure_writeable(&mut self)
        requires
            old(self).inv(),
        ensures
            final(self).inv(),
            final(self)@ == (FtfcView {
                device: old(self)@.device.fcnfg_written(old(self)@.device.regs.fcnfg | FCNFG_CCIE),
                ..old(self)@
            }),
    {
        let fcnfg = self.device.read_fcnfg();
        self.device.write_fcnfg(fcnfg | FCNFG_CCIE);
    }

    /// Sets the erase-all request bit.
    pub fn configure_eraseable(&mut self)
        requires
            old(self).inv(),
        ensures
            final(self).inv(),
            final(self)@ == (FtfcView {
                device: old(self)@.device.fcnfg_written(
                    old(self)@.device.regs.fcnfg | FCNFG_ERSAREQ,
                ),
                ..old(self)@
            }),
    {
        let fcnfg = self.device.read_fcnfg();
        self.device.write_fcnfg(fcnfg | FCNFG_ERSAREQ);
    }

    /// Loads the command registers: the opcode into FCCOB0 and address bits
    /// 23:16, 15:8 and 7:0 into FCCOB1, FCCOB2 and FCCOB3.
    pub fn write_command(&mut self, command: u8, address: u32)
        requires
            old(self).wf(),
        ensures
            final(self).wf(),
            final(self)@ == (FtfcView {
                device: FtfcModel {
                    regs: FtfcRegisters {
                        fccob0: command,
                        fccob1: address_byte(address, 1),
                        fccob2: address_byte(address, 2),
                        fccob3: address_byte(address, 3),
                        ..old(self)@.device.regs
                    },
                    writes: old(self)@.device.writes + load_writes(command, address),
                    ..old(self)@.device
                },
                ..old(self)@
            }),
    {
        self.device.write_fccob(0, command);
        self.device.write_fccob(1, ((address >> 16) & 0xFF) as u8);
        self.device.write_fccob(2, ((address >> 8) & 0xFF) as u8);
        self.device.write_fccob(3, (address & 0xFF) as u8);
        assert(self@.device.writes =~= old(self)@.device.writes + load_writes(command, address));
    }

    /// Polls the status register until the module reports that the running
    /// command has ended.
    pub fn wait_for_command_complete(&mut self)
        requires
            old(self).inv(),
        ensures
            final(self).wf(),
            final(self)@ == (FtfcView { device: old(self)@.device.settled(), ..old(self)@ }),
    {
        let mut ready = self.is_ready();
        while !ready
            invariant
                self.inv(),
                ready == self@.device.regs.ready(),
                self@ == (FtfcView { device: self@.device, ..old(self)@ }),
                self@.device.settled() == old(self)@.device.settled(),
            decreases self@.device.busy,
        {
            ready = self.is_ready();
        }
    }

    /// Issues one command and waits for its end: clears the error flags,
    /// loads the command registers, starts the command by writing 1 to the
    /// command-complete flag, and polls until the flag is back. Returns the
    /// error that the module then flags, if it flags one.
    pub fn run_command(&mut self, command: u8, address: u32) -> (result: Result<(), ErrorCode>)
        requires
            old(self).wf(),
        ensures
            final(self).wf(),
            final(self)@ == (FtfcView {
                device: after_command(old(self)@.device, command, address),
                ..old(self)@
            }),
            result == command_result(final(self)@.device),
    {
        self.clear_fstat_errors();
        self.write_command(command, address);
        let ghost loaded = self@.device;
        proof {
            lemma_status_writes(loaded.regs.fstat);
            let launching = loaded.logged(BusWrite::Status(FSTAT_CCIF));
            assert(launching.writes =~= old(self)@.device.writes + command_writes(command, address));
            assert(launching == command_loaded(old(self)@.device, command, address));
            assert(launching.with_fstat(loaded.regs.fstat) == launching);
        }
        self.device.write_fstat(FSTAT_CCIF);
        self.wait_for_command_complete();
        match self.device.registers().error() {
            Some(error) => Err(error),
            None => Ok(()),
        }
    }
}

/// Programming a page over an erased page leaves exactly the programmed
/// bytes.
pub proof fn lemma_program_erased(bytes: Seq<u8>)
    requires
        bytes.len() == PAGE_SIZE,
    ensures
        ftfc_model::programmed_page(ftfc_model::erased_page(), bytes) == bytes,
{
    let programmed = ftfc_model::programmed_page(ftfc_model::erased_page(), bytes);
    assert forall|i: int| 0 <= i < PAGE_SIZE implies programmed[i] == bytes[i] by {
        let value = bytes[i];
        assert(0xFFu8 & value == value) by (bit_vector);
    }
    assert(ftfc_model::programmed_page(ftfc_model::erased_page(), bytes) =~= bytes);
}

/// The configuration sector's system address, cut to the 24 bits of the
/// command registers, is the address that the module knows the sector by.
proof fn lemma_config_address()
    ensures
        address_of_bytes(
            address_byte(CONFIG_BASE, 1),
            address_byte(CONFIG_BASE, 2),
            address_byte(CONFIG_BASE, 3),
        ) == CONFIG_SECTOR,
{
    assert(address_of_bytes(
        ((0x10001000u32 >> 16) & 0xFF) as u8,
        ((0x10001000u32 >> 8) & 0xFF) as u8,
        (0x10001000u32 & 0xFF) as u8,
    ) == 0x001000u32) by (bit_vector);
}

impl Ftfc {
    /// Erases the reserved configuration sector and waits for the end of
    /// the command. The program array and the driver's state stay as they
    /// are.
    pub fn erase_uicr(&mut self)
        requires
            old(self).wf(),
        ensures
            final(self).wf(),
            final(self)@ == (FtfcView {
                device: FtfcModel {
                    config: ftfc_model::erased_page(),
                    ..command_loaded(old(self)@.device, CMD_ERASE_CONFIG, CONFIG_BASE)
                },
                ..old(self)@
            }),
            status_error(final(self)@.device.regs.fstat) is None,
    {
        proof {
            let device = self@.device;
            let loaded = command_loaded(device, CMD_ERASE_CONFIG, CONFIG_BASE);
            let erased = FtfcModel { config: ftfc_model::erased_page(), ..loaded };
            lemma_config_address();
            lemma_cleared_status(device.regs.fstat);
            assert(loaded.launched() == erased.started());
            assert(erased.started().settled() == erased);
        }
        let _ = self.run_command(CMD_ERASE_CONFIG, CONFIG_BASE);
    }

    /// Issues the erase command for page `page_number` and waits for its
    /// end.
    fn erase_page_helper(&mut self, page_number: usize) -> (result: Result<(), ErrorCode>)
        requires
            old(self).wf(),
            page_number < NUM_PAGES,
        ensures
            final(self).wf(),
            final(self)@ == (FtfcView {
                device: after_command(
                    old(self)@.device,
                    CMD_ERASE_SECTOR,
                    page_address(page_number as int),
                ),
                ..old(self)@
            }),
            result == command_result(final(self)@.device),
    {
        self.run_command(CMD_ERASE_SECTOR, (page_number * PAGE_SIZE) as u32)
    }

    /// Reads page `page_number` into `buffer`, keeps the buffer, and arms
    /// the completion that hands it back.
    ///
    /// While another operation is in flight the buffer comes back with
    /// `Busy`; for a page number outside the array it comes back with
    /// `InvalidSize`. In both cases nothing else happens.
    pub fn read_range(&mut self, page_number: usize, buffer: FtfcPage) -> (result: Result<
        (),
        (ErrorCode, FtfcPage),
    >)
        requires
            old(self).wf(),
        ensures
            final(self).wf(),
            match old(self)@.refusal(page_number as int) {
                Some(error) => result == Err::<(), (ErrorCode, FtfcPage)>((error, buffer))
                    && final(self)@ == old(self)@,
                None => result is Ok && final(self)@ == old(self)@.read_requested(
                    page_number as int,
                ),
            },
    {
        if self.state != FlashState::Ready {
            return Err((ErrorCode::Busy, buffer));
        }
        if page_number >= NUM_PAGES {
            return Err((ErrorCode::InvalidSize, buffer));
        }
        let mut page = buffer;
        let base = page_number * PAGE_SIZE;
        let mut i: usize = 0;
        while i < PAGE_SIZE
            invariant
                i <= PAGE_SIZE,
                base == page_number * PAGE_SIZE,
                page_number < NUM_PAGES,
                self.wf(),
                self@ == old(self)@,
                forall|j: int| 0 <= j < i ==> page@[j] == self@.device.memory[base + j],
            decreases PAGE_SIZE - i,
        {
            let byte = self.device.read_byte(base + i);
            let ghost filled = page@;
            page.0[i] = byte;
            assert(page@ == filled.update(i as int, byte));
            i = i + 1;
        }
        assert(page@ =~= ftfc_model::page_of(self@.device.memory, page_number as int));
        self.buffer = Some(page);
        self.state = FlashState::Read;
        self.deferred_call.set();
        Ok(())
    }

    /// Reads page `page_number`: the same as `read_range`.
    pub fn read_page(&mut self, page_number: usize, buffer: FtfcPage) -> (result: Result<
        (),
        (ErrorCode, FtfcPage),
    >)
        requires
            old(self).wf(),
        ensures
            final(self).wf(),
            match old(self)@.refusal(page_number as int) {
                Some(error) => result == Err::<(), (ErrorCode, FtfcPage)>((error, buffer))
                    && final(self)@ == old(self)@,
                None => result is Ok && final(self)@ == old(self)@.read_requested(
                    page_number as int,
                ),
            },
    {
        self.read_range(page_number, buffer)
    }

    /// Erases page `page_number`, programs `buffer` over it, keeps the
    /// buffer, and arms the completion that hands it back.
    ///
    /// While another operation is in flight the buffer comes back with
    /// `Busy`; for a page number outside the array it comes back with
    /// `InvalidSize`. In both cases nothing else happens. If the page is
    /// protected, the module refuses the erase: nothing is programmed and
    /// the buffer comes back with `ProtectionViolation`.
    pub fn write_page(&mut self, page_number: usize, buffer: FtfcPage) -> (result: Result<
        (),
        (ErrorCode, FtfcPage),
    >)
        requires
            old(self).wf(),
        ensures
            final(self).wf(),
            match old(self)@.refusal(page_number as int) {
                Some(error) => result == Err::<(), (ErrorCode, FtfcPage)>((error, buffer))
                    && final(self)@ == old(self)@,
                None => final(self)@ == old(self)@.write_requested(page_number as int, buffer@)
                    && if ftfc_model::page_protected(old(self)@.device.regs, page_number as int) {
                    &&& result == Err::<(), (ErrorCode, FtfcPage)>(
                        (ErrorCode::ProtectionViolation, buffer),
                    )
                    &&& final(self)@.device.writes == old(self)@.device.writes + command_writes(
                        CMD_ERASE_SECTOR,
                        page_address(page_number as int),
                    )
                    &&& final(self)@.device.memory == old(self)@.device.memory
                    &&& final(self)@.state == FlashState::Ready
                    &&& final(self)@.buffer is None
                    &&& final(self)@.deferred_call == old(self)@.deferred_call
                } else {
                    &&& result is Ok
                    &&& final(self)@.device.writes == old(self)@.device.writes + command_writes(
                        CMD_ERASE_SECTOR,
                        page_address(page_number as int),
                    ) + program_writes(page_number as int, buffer@, PAGE_SIZE as int)
                    &&& final(self)@.device.memory == ftfc_model::with_page(
                        old(self)@.device.memory,
                        page_number as int,
                        buffer@,
                    )
                    &&& final(self)@.state == FlashState::Write
                    &&& final(self)@.buffer == Some(buffer@)
                    &&& final(self)@.deferred_call == old(self)@.deferred_call.armed()
                },
            },
    {
        if self.state != FlashState::Ready {
            return Err((ErrorCode::Busy, buffer));
        }
        if page_number >= NUM_PAGES {
            return Err((ErrorCode::InvalidSize, buffer));
        }
        proof {
            lemma_erase_command(self@.device, page_number as int);
        }
        match self.erase_page_helper(page_number) {
            Err(error) => {
                return Err((error, buffer));
            },
            Ok(()) => {},
        }
        let ghost erased = self@.device;
        assert(erased.writes =~= erased.writes + program_writes(page_number as int, buffer@, 0));
        let base = page_number * PAGE_SIZE;
        let mut i: usize = 0;
        while i < PAGE_SIZE
            invariant
                i <= PAGE_SIZE,
                base == page_number * PAGE_SIZE,
                page_number < NUM_PAGES,
                self.wf(),
                erased.wf(),
                !ftfc_model::page_protected(erased.regs, page_number as int),
                self@ == (FtfcView { device: self@.device, ..old(self)@ }),
                self@.device == (FtfcModel {
                    memory: self@.device.memory,
                    writes: erased.writes + program_writes(page_number as int, buffer@, i as int),
                    ..erased
                }),
                forall|j: int|
                    0 <= j < base || base + i <= j < FLASH_SIZE ==> self@.device.memory[j]
                        == erased.memory[j],
                forall|j: int|
                    base <= j < base + i ==> self@.device.memory[j] == erased.memory[j] & buffer@[j
                        - base],
            decreases PAGE_SIZE - i,
        {
            let byte = *buffer.index(i);
            assert((base + i) as int / PAGE_SIZE as int == page_number);
            self.device.program_byte(base + i, byte);
            assert(self@.device.writes =~= erased.writes + program_writes(
                page_number as int,
                buffer@,
                i + 1,
            ));
            i = i + 1;
        }
        proof {
            let page = page_number as int;
            let programmed = ftfc_model::programmed_page(
                ftfc_model::page_of(erased.memory, page),
                buffer@,
            );
            assert(self@.device.memory =~= ftfc_model::with_page(erased.memory, page, programmed));
            assert(ftfc_model::page_of(erased.memory, page) =~= ftfc_model::erased_page());
            lemma_program_erased(buffer@);
            assert(ftfc_model::with_page(erased.memory, page, buffer@) =~= ftfc_model::with_page(
                old(self)@.device.memory,
                page,
                buffer@,
            ));
        }
        self.buffer = Some(buffer);
        self.state = FlashState::Write;
        self.deferred_call.set();
        Ok(())
    }

    /// Erases page `page_number` and arms the completion.
    ///
    /// While another operation is in flight the result is `Busy`; for a
    /// page number outside the array it is `InvalidSize`. In both cases
    /// nothing else happens. If the page is protected, the module refuses
    /// the erase: the result is `ProtectionViolation` and the driver stays
    /// `Ready`.
    pub fn erase_page(&mut self, page_number: usize) -> (result: Result<(), ErrorCode>)
        requires
            old(self).wf(),
        ensures
            final(self).wf(),
            match old(self)@.refusal(page_number as int) {
                Some(error) => result == Err::<(), ErrorCode>(error) && final(self)@ == old(self)@,
                None => final(self)@ == old(self)@.erase_requested(page_number as int)
                    && final(self)@.device.writes == old(self)@.device.writes + command_writes(
                    CMD_ERASE_SECTOR,
                    page_address(page_number as int),
                ) && if ftfc_model::page_protected(old(self)@.device.regs, page_number as int) {
                    &&& result == Err::<(), ErrorCode>(ErrorCode::ProtectionViolation)
                    &&& final(self)@.device.memory == old(self)@.device.memory
                    &&& final(self)@.state == FlashState::Ready
                    &&& final(self)@.deferred_call == old(self)@.deferred_call
                } else {
                    &&& result is Ok
                    &&& final(self)@.device.memory == ftfc_model::with_page(
                        old(self)@.device.memory,
                        page_number as int,
                        ftfc_model::erased_page(),
                    )
                    &&& final(self)@.state == FlashState::Erase
                    &&& final(self)@.deferred_call == old(self)@.deferred_call.armed()
                },
            },
    {
        if self.state != FlashState::Ready {
            return Err(ErrorCode::Busy);
        }
        if page_number >= NUM_PAGES {
            return Err(ErrorCode::InvalidSize);
        }
        proof {
            lemma_erase_command(self@.device, page_number as int);
        }
        match self.erase_page_helper(page_number) {
            Err(error) => {
                return Err(error);
            },
            Ok(()) => {},
        }
        self.state = FlashState::Erase;
        self.deferred_call.set();
        Ok(())
    }

    /// Returns the driver to `Ready` and hands out the completion that it
    /// owes: the buffer of a read or a write, or the end of an erase; none
    /// where nothing was in flight.
    pub fn handle_interrupt(&mut self) -> (completion: Option<Completion>)
        requires
            old(self).wf(),
        ensures
            final(self).wf(),
            final(self)@ == old(self)@.completed(),
            match completion {
                Some(completion) => old(self)@.completion() == Some(completion@),
                None => old(self)@.completion() is None,
            },
    {
        let state = self.state;
        self.state = FlashState::Ready;
        let buffer = self.buffer.take();
        match state {
            FlashState::Read => match buffer {
                Some(page) => Some(Completion::Read(page, Ok(()))),
                None => None,
            },
            FlashState::Write => match buffer {
                Some(page) => Some(Completion::Write(page, Ok(()))),
                None => None,
            },
            FlashState::Erase => Some(Completion::Erase(Ok(()))),
            FlashState::Ready => None,
        }
    }

    /// The handler that the dispatcher runs for the driver's slot.
    pub fn handle_deferred_call(&mut self) -> (completion: Option<Completion>)
        requires
            old(self).wf(),
        ensures
            final(self).wf(),
            final(self)@ == old(self)@.completed(),
            match completion {
                Some(completion) => old(self)@.completion() == Some(completion@),
                None => old(self)@.completion() is None,
            },
    {
        self.handle_interrupt()
    }

    /// Registers the driver's handler with its slot.
    pub fn register(&mut self)
        requires
            old(self).wf(),
        ensures
            final(self).wf(),
            final(self)@ == (FtfcView {
                deferred_call: old(self)@.deferred_call.with_handler(),
                ..old(self)@
            }),
    {
        self.deferred_call.register();
    }

    /// Tells whether the driver's completion is armed.
    pub fn has_pending_deferred_call(&self) -> (pending: bool)
        ensures
            pending == self@.deferred_call.pending,
    {
        self.deferred_call.is_pending()
    }

    /// Tells whether servicing the driver's slot now runs its handler.
    pub fn is_deferred_call_due(&self) -> (due: bool)
        ensures
            due == self@.deferred_call.due(),
    {
        self.deferred_call.is_pending() && self.deferred_call.registered
    }

    /// What the dispatcher does with the driver's slot at a safe point:
    /// disarms it and, if it was armed and has a handler, runs the handler.
    /// Arming never runs the handler, and one arming is served once.
    pub fn service_deferred_call(&mut self) -> (completion: Option<Completion>)
        requires
            old(self).wf(),
        ensures
            final(self).wf(),
            final(self)@ == old(self)@.serviced(),
            !final(self)@.deferred_call.pending,
            match completion {
                Some(completion) => old(self)@.deferred_call.due() && old(self)@.completion()
                    == Some(completion@),
                None => !old(self)@.deferred_call.due() || old(self)@.completion() is None,
            },
    {
        if self.deferred_call.service() {
            self.handle_deferred_call()
        } else {
            None
        }
    }
}

/// What a write of `bytes` to an unprotected page does, asked of a `Ready`
/// driver: the page then holds `bytes`, every other page is as before, and
/// the driver holds the buffer until its completion.
pub proof fn lemma_write_requested(driver: FtfcView, page: int, bytes: Seq<u8>)
    requires
        driver.wf(),
        driver.state == FlashState::Ready,
        0 <= page < NUM_PAGES,
        bytes.len() == PAGE_SIZE,
        !ftfc_model::page_protected(driver.device.regs, page),
    ensures
        ({
            let written = driver.write_requested(page, bytes);
            &&& written.wf()
            &&& written.state == FlashState::Write
            &&& written.buffer == Some(bytes)
            &&& written.device.memory == ftfc_model::with_page(driver.device.memory, page, bytes)
            &&& ftfc_model::page_of(written.device.memory, page) == bytes
            &&& !ftfc_model::page_protected(written.device.regs, page)
        }),
{
    let erased = after_command(driver.device, CMD_ERASE_SECTOR, page_address(page));
    let written = driver.write_requested(page, bytes);
    lemma_erase_command(driver.device, page);
    assert(ftfc_model::page_of(erased.memory, page) =~= ftfc_model::erased_page());
    lemma_program_erased(bytes);
    assert(written.device.memory =~= ftfc_model::with_page(driver.device.memory, page, bytes));
    assert(ftfc_model::page_of(written.device.memory, page) =~= bytes);
}

/// What an erase of an unprotected page does, asked of a `Ready` driver:
/// the page then holds erased bytes and every other page is as before.
pub proof fn lemma_erase_requested(driver: FtfcView, page: int)
    requires
        driver.wf(),
        driver.state == FlashState::Ready,
        0 <= page < NUM_PAGES,
        !ftfc_model::page_protected(driver.device.regs, page),
    ensures
        ({
            let erased = driver.erase_requested(page);
            &&& erased.wf()
            &&& erased.state == FlashState::Erase
            &&& erased.device.memory == ftfc_model::with_page(
                driver.device.memory,
                page,
                ftfc_model::erased_page(),
            )
            &&& ftfc_model::page_of(erased.device.memory, page) == ftfc_model::erased_page()
            &&& !ftfc_model::page_protected(erased.device.regs, page)
        }),
{
    let erased = driver.erase_requested(page);
    lemma_erase_command(driver.device, page);
    assert(ftfc_model::page_of(erased.device.memory, page) =~= ftfc_model::erased_page());
}

/// A read of any page in range, followed by its completion, hands back a
/// buffer that holds the page as the array had it when the read was asked
/// for, and the array is as before.
pub proof fn law_read_returns_page(driver: FtfcView, page: int)
    requires
        driver.wf(),
        driver.state == FlashState::Ready,
        0 <= page < NUM_PAGES,
    ensures
        ({
            let reading = driver.read_requested(page);
            &&& reading.wf()
            &&& reading.completion() == Some(
                CompletionView::Read(ftfc_model::page_of(driver.device.memory, page), Ok(())),
            )
            &&& reading.completed().wf()
            &&& reading.completed().state == FlashState::Ready
            &&& reading.completed().device == driver.device
        }),
{
}

/// Writing the same buffer to a page twice, each write followed by its
/// completion, leaves the page equal to the buffer both times.
pub proof fn law_write_twice(driver: FtfcView, page: int, bytes: Seq<u8>)
    requires
        driver.wf(),
        driver.state == FlashState::Ready,
        0 <= page < NUM_PAGES,
        bytes.len() == PAGE_SIZE,
        !ftfc_model::page_protected(driver.device.regs, page),
    ensures
        ({
            let once = driver.write_requested(page, bytes).completed();
            let twice = once.write_requested(page, bytes).completed();
            &&& ftfc_model::page_of(once.device.memory, page) == bytes
            &&& ftfc_model::page_of(twice.device.memory, page) == bytes
            &&& twice.device.memory == once.device.memory
            &&& once.completion() is None
            &&& twice.wf()
        }),
{
    lemma_write_requested(driver, page, bytes);
    let once = driver.write_requested(page, bytes).completed();
    lemma_write_requested(once, page, bytes);
    let twice = once.write_requested(page, bytes).completed();
    assert(twice.device.memory =~= once.device.memory);
}

/// At most one operation is in flight: the driver is in one state, and
/// while that state is a read, a write or an erase, every request for any
/// page is turned down with `Busy` until the completion was handed out.
/// Handing out the completion returns the driver to `Ready`, and then no
/// completion is owed.
pub proof fn law_one_operation_in_flight(driver: FtfcView, page: int)
    requires
        driver.wf(),
    ensures
        driver.state != FlashState::Ready ==> driver.refusal(page) == Some(ErrorCode::Busy)
            && driver.completion() is Some,
        driver.state == FlashState::Ready ==> driver.completion() is None,
        driver.completed().wf(),
        driver.completed().state == FlashState::Ready,
        driver.completed().completion() is None,
        driver.completed().refusal(page) != Some(ErrorCode::Busy),
{
}

/// An erase of a page, its completion, and then a read of that page hand
/// back a buffer of erased bytes.
pub proof fn law_erase_then_read(driver: FtfcView, page: int)
    requires
        driver.wf(),
        driver.state == FlashState::Ready,
        0 <= page < NUM_PAGES,
        !ftfc_model::page_protected(driver.device.regs, page),
    ensures
        ({
            let erased = driver.erase_requested(page);
            let reading = erased.completed().read_requested(page);
            &&& erased.completion() == Some(CompletionView::Erase(Ok(())))
            &&& reading.completion() == Some(
                CompletionView::Read(ftfc_model::erased_page(), Ok(())),
            )
            &&& forall|i: int| 0 <= i < PAGE_SIZE ==> ftfc_model::erased_page()[i] == 0xFFu8
        }),
{
    lemma_erase_requested(driver, page);
}

/// A write of a buffer to a page, its completion, a read of that page and
/// its completion hand back the bytes that were written, for every page in
/// range and every content.
pub proof fn law_write_then_read(driver: FtfcView, page: int, bytes: Seq<u8>)
    requires
        driver.wf(),
        driver.state == FlashState::Ready,
        0 <= page < NUM_PAGES,
        bytes.len() == PAGE_SIZE,
        !ftfc_model::page_protected(driver.device.regs, page),
    ensures
        ({
            let writing = driver.write_requested(page, bytes);
            let reading = writing.completed().read_requested(page);
            &&& writing.completion() == Some(CompletionView::Write(bytes, Ok(())))
            &&& reading.completion() == Some(CompletionView::Read(bytes, Ok(())))
        }),
{
    lemma_write_requested(driver, page, bytes);
}

} // verus!
