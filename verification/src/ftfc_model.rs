//! A model of the flash module that the driver talks to: the register file,
//! the memory-mapped program array, the reserved configuration sector, and
//! how the module reacts to each register or memory access.
//!
//! `FtfcModel` states the behaviour as pure functions; `FtfcDevice` is an
//! in-memory device that follows it step by step. The device also keeps a
//! log of the writes that reach it over the bus, in their order, so that
//! the same writes can be repeated elsewhere.

use vstd::prelude::*;
use crate::nvmc::FtfcRegisters;
use crate::nvmc::{CMD_ERASE_CONFIG, CMD_ERASE_SECTOR, FLASH_SIZE, NUM_PAGES, PAGE_SIZE};
use crate::nvmc::{FSTAT_ACCERR, FSTAT_CCIF, FSTAT_ERRORS, FSTAT_FPVIOL, FSTAT_RDCOLERR};

verus! {

/// What an erased flash byte reads as.
pub const ERASED_BYTE: u8 = 0xFF;

/// The configuration sector's address as the command registers see it: the
/// low 24 bits of its system address.
pub const CONFIG_SECTOR: u32 = 0x001000;

/// A page that holds nothing but erased bytes.
pub open spec fn erased_page() -> Seq<u8> {
    Seq::new(PAGE_SIZE as nat, |i: int| ERASED_BYTE)
}

/// The bytes of page `page` in `memory`.
pub open spec fn page_of(memory: Seq<u8>, page: int) -> Seq<u8> {
    memory.subrange(page * PAGE_SIZE, (page + 1) * PAGE_SIZE)
}

/// `memory` with page `page` replaced by `bytes`.
pub open spec fn with_page(memory: Seq<u8>, page: int, bytes: Seq<u8>) -> Seq<u8> {
    Seq::new(
        memory.len(),
        |i: int|
            if page * PAGE_SIZE <= i < (page + 1) * PAGE_SIZE {
                bytes[i - page * PAGE_SIZE]
            } else {
                memory[i]
            },
    )
}

/// What a flash cell holds after `value` is programmed over `old`: programming
/// can only clear bits.
pub open spec fn programmed(old: u8, value: u8) -> u8 {
    old & value
}

/// `old` after each byte of `bytes` was programmed over it.
pub open spec fn programmed_page(old: Seq<u8>, bytes: Seq<u8>) -> Seq<u8> {
    Seq::new(old.len(), |i: int| programmed(old[i], bytes[i]))
}

/// The protection register that guards page `page`. Each register bit
/// guards four pages; FPROT3 holds the lowest pages.
pub open spec fn protection_byte(regs: FtfcRegisters, page: int) -> u8 {
    if page < 32 {
        regs.fprot3
    } else if page < 64 {
        regs.fprot2
    } else if page < 96 {
        regs.fprot1
    } else {
        regs.fprot0
    }
}

/// The bit of its protection register that guards page `page`.
pub open spec fn protection_bit(page: int) -> u8 {
    1u8 << (((page / 4) % 8) as u8)
}

/// Page `page` is protected: its protection bit reads 0.
pub open spec fn page_protected(regs: FtfcRegisters, page: int) -> bool {
    protection_byte(regs, page) & protection_bit(page) == 0
}

/// `regs` with command byte `index` set to `value`; other indices change
/// nothing.
pub open spec fn with_fccob(regs: FtfcRegisters, index: int, value: u8) -> FtfcRegisters {
    if index == 0 {
        FtfcRegisters { fccob0: value, ..regs }
    } else if index == 1 {
        FtfcRegisters { fccob1: value, ..regs }
    } else if index == 2 {
        FtfcRegisters { fccob2: value, ..regs }
    } else if index == 3 {
        FtfcRegisters { fccob3: value, ..regs }
    } else if index == 4 {
        FtfcRegisters { fccob4: value, ..regs }
    } else if index == 5 {
        FtfcRegisters { fccob5: value, ..regs }
    } else if index == 6 {
        FtfcRegisters { fccob6: value, ..regs }
    } else if index == 7 {
        FtfcRegisters { fccob7: value, ..regs }
    } else if index == 8 {
        FtfcRegisters { fccob8: value, ..regs }
    } else if index == 9 {
        FtfcRegisters { fccob9: value, ..regs }
    } else if index == 10 {
        FtfcRegisters { fccoba: value, ..regs }
    } else if index == 11 {
        FtfcRegisters { fccobb: value, ..regs }
    } else {
        regs
    }
}

/// `regs` with protection register `index` and-ed with `value`: protection
/// can be added, never removed. Other indices change nothing.
pub open spec fn with_fprot(regs: FtfcRegisters, index: int, value: u8) -> FtfcRegisters {
    if index == 0 {
        FtfcRegisters { fprot0: regs.fprot0 & value, ..regs }
    } else if index == 1 {
        FtfcRegisters { fprot1: regs.fprot1 & value, ..regs }
    } else if index == 2 {
        FtfcRegisters { fprot2: regs.fprot2 & value, ..regs }
    } else if index == 3 {
        FtfcRegisters { fprot3: regs.fprot3 & value, ..regs }
    } else {
        regs
    }
}

/// One write to the flash module over the bus.
#[derive(Clone, Copy, Debug, PartialEq, Eq)]
pub enum BusWrite {
    /// A write of the value to the status register.
    Status(u8),
    /// A write of the value to the configuration register.
    Config(u8),
    /// A write of the value to the command byte of the index.
    CommandByte(usize, u8),
    /// A write of the value to the protection register of the index.
    Protection(usize, u8),
    /// A write of the value to the array byte at the address.
    Program(usize, u8),
}

/// The state of the flash module.
pub struct FtfcModel {
    /// The register file.
    pub regs: FtfcRegisters,
    /// The program array, `FLASH_SIZE` bytes.
    pub memory: Seq<u8>,
    /// The reserved configuration sector, `PAGE_SIZE` bytes.
    pub config: Seq<u8>,
    /// Status polls left until the running command completes; 0 when idle.
    pub busy: nat,
    /// Status polls that a started command takes.
    pub latency: nat,
    /// The writes that reached the module since the log was last taken,
    /// oldest first.
    pub writes: Seq<BusWrite>,
}

impl FtfcModel {
    /// The sizes are right and the command-complete flag tells whether a
    /// command is running.
    pub open spec fn wf(self) -> bool {
        &&& self.memory.len() == FLASH_SIZE
        &&& self.config.len() == PAGE_SIZE
        &&& self.busy <= self.latency
        &&& (self.busy == 0 <==> self.regs.ready())
    }

    /// No command is running.
    pub open spec fn idle(self) -> bool {
        self.busy == 0
    }

    /// The module after reset: erased array and configuration sector, no
    /// protection, no error, ready.
    pub open spec fn blank(latency: nat) -> FtfcModel {
        FtfcModel {
            regs: FtfcRegisters {
                fstat: FSTAT_CCIF,
                fcnfg: 0,
                fsec: 0,
                fopt: 0,
                fccob3: 0,
                fccob2: 0,
                fccob1: 0,
                fccob0: 0,
                fccob7: 0,
                fccob6: 0,
                fccob5: 0,
                fccob4: 0,
                fccobb: 0,
                fccoba: 0,
                fccob9: 0,
                fccob8: 0,
                fprot3: 0xFF,
                fprot2: 0xFF,
                fprot1: 0xFF,
                fprot0: 0xFF,
                feprot: 0,
                fdprot: 0,
            },
            memory: Seq::new(FLASH_SIZE as nat, |i: int| ERASED_BYTE),
            config: erased_page(),
            busy: 0,
            latency,
            writes: Seq::empty(),
        }
    }

    /// The same module with `write` added to its log.
    pub open spec fn logged(self, write: BusWrite) -> FtfcModel {
        FtfcModel { writes: self.writes.push(write), ..self }
    }

    /// The same module with an empty log.
    pub open spec fn unlogged(self) -> FtfcModel {
        FtfcModel { writes: Seq::empty(), ..self }
    }

    /// The same module with `fstat` as its status byte.
    pub open spec fn with_fstat(self, fstat: u8) -> FtfcModel {
        FtfcModel { regs: FtfcRegisters { fstat, ..self.regs }, ..self }
    }

    /// The module with the flags of `mask` raised.
    pub open spec fn flagged(self, mask: u8) -> FtfcModel {
        self.with_fstat(self.regs.fstat | mask)
    }

    /// One status poll later: a running command is one poll closer to its
    /// end, and at its end the command-complete flag rises.
    pub open spec fn polled(self) -> FtfcModel {
        if self.busy == 0 {
            self
        } else if self.busy == 1 {
            FtfcModel { busy: 0, ..self.flagged(FSTAT_CCIF) }
        } else {
            FtfcModel { busy: (self.busy - 1) as nat, ..self }
        }
    }

    /// The module once a running command has come to its end, however many
    /// polls that takes.
    pub open spec fn settled(self) -> FtfcModel {
        if self.busy == 0 {
            self
        } else {
            FtfcModel { busy: 0, ..self.flagged(FSTAT_CCIF) }
        }
    }

    /// The module right after a command was accepted: busy for `latency`
    /// polls, or still ready where the latency is 0.
    pub open spec fn started(self) -> FtfcModel {
        if self.latency == 0 {
            self
        } else {
            FtfcModel { busy: self.latency, ..self.with_fstat(self.regs.fstat & !FSTAT_CCIF) }
        }
    }

    /// The module after the command in the command registers was launched
    /// from the idle state.
    ///
    /// A launch while an access error or a protection violation is still
    /// flagged is an access error, and so is an unknown opcode, an address
    /// outside the array or off a page boundary. A protected page is a
    /// protection violation. In all these cases nothing is erased and the
    /// module stays ready.
    pub open spec fn launched(self) -> FtfcModel {
        let address = self.regs.command_address();
        let page = address as int / PAGE_SIZE as int;
        if self.regs.fstat & (FSTAT_ACCERR | FSTAT_FPVIOL) != 0 {
            self.flagged(FSTAT_ACCERR)
        } else if self.regs.fccob0 == CMD_ERASE_SECTOR {
            if address >= FLASH_SIZE || address as int % PAGE_SIZE as int != 0 {
                self.flagged(FSTAT_ACCERR)
            } else if page_protected(self.regs, page) {
                self.flagged(FSTAT_FPVIOL)
            } else {
                FtfcModel { memory: with_page(self.memory, page, erased_page()), ..self }.started()
            }
        } else if self.regs.fccob0 == CMD_ERASE_CONFIG {
            if address != CONFIG_SECTOR {
                self.flagged(FSTAT_ACCERR)
            } else {
                FtfcModel { config: erased_page(), ..self }.started()
            }
        } else {
            self.flagged(FSTAT_ACCERR)
        }
    }

    /// The module after `value` was written to the status register: the
    /// error flags written as 1 are cleared, and a 1 in the command-complete
    /// bit launches the command if the module is idle.
    pub open spec fn fstat_written(self, value: u8) -> FtfcModel {
        let cleared = self.logged(BusWrite::Status(value)).with_fstat(
            self.regs.fstat & !(value & FSTAT_ERRORS),
        );
        if value & FSTAT_CCIF != 0 && self.busy == 0 {
            cleared.launched()
        } else {
            cleared
        }
    }

    /// The module after `value` was written to the configuration register.
    pub open spec fn fcnfg_written(self, value: u8) -> FtfcModel {
        FtfcModel {
            regs: FtfcRegisters { fcnfg: value, ..self.regs },
            ..self.logged(BusWrite::Config(value))
        }
    }

    /// The module after `value` was written to command byte `index`: taken
    /// while idle, ignored while a command runs.
    pub open spec fn fccob_written(self, index: int, value: u8) -> FtfcModel {
        let logged = self.logged(BusWrite::CommandByte(index as usize, value));
        if self.busy == 0 {
            FtfcModel { regs: with_fccob(self.regs, index, value), ..logged }
        } else {
            logged
        }
    }

    /// The module after `value` was written to protection register `index`.
    pub open spec fn fprot_written(self, index: int, value: u8) -> FtfcModel {
        FtfcModel {
            regs: with_fprot(self.regs, index, value),
            ..self.logged(BusWrite::Protection(index as usize, value))
        }
    }

    /// The module after the array byte at `address` was read: a read while a
    /// command runs raises the read-collision flag.
    pub open spec fn byte_read(self, address: int) -> FtfcModel {
        if self.busy == 0 {
            self
        } else {
            self.flagged(FSTAT_RDCOLERR)
        }
    }

    /// The module after `value` was programmed at `address`: a collision
    /// while a command runs, a protection violation on a protected page,
    /// else the cell keeps the bits that both its old value and `value` have.
    pub open spec fn byte_programmed(self, address: int, value: u8) -> FtfcModel {
        let logged = self.logged(BusWrite::Program(address as usize, value));
        if self.busy != 0 {
            logged.flagged(FSTAT_RDCOLERR)
        } else if page_protected(self.regs, address / PAGE_SIZE as int) {
            logged.flagged(FSTAT_FPVIOL)
        } else {
            FtfcModel {
                memory: self.memory.update(address, programmed(self.memory[address], value)),
                ..logged
            }
        }
    }
}

/// Clearing error flags leaves the command-complete flag as it was.
proof fn lemma_clear_keeps_ready(fstat: u8, value: u8)
    by (bit_vector)
    ensures
        (fstat & !(value & FSTAT_ERRORS)) & FSTAT_CCIF == fstat & FSTAT_CCIF,
{
}

/// Raising an error flag leaves the command-complete flag as it was.
proof fn lemma_flag_keeps_ready(fstat: u8)
    by (bit_vector)
    ensures
        (fstat | FSTAT_ACCERR) & FSTAT_CCIF == fstat & FSTAT_CCIF,
        (fstat | FSTAT_FPVIOL) & FSTAT_CCIF == fstat & FSTAT_CCIF,
        (fstat | FSTAT_RDCOLERR) & FSTAT_CCIF == fstat & FSTAT_CCIF,
{
}

/// Writing the command-complete flag sets or clears exactly that flag.
proof fn lemma_ready_flag(fstat: u8)
    by (bit_vector)
    ensures
        (fstat | FSTAT_CCIF) & FSTAT_CCIF != 0,
        (fstat & !FSTAT_CCIF) & FSTAT_CCIF == 0,
{
}

/// The register file after reset.
fn reset_registers() -> (regs: FtfcRegisters)
    ensures
        regs == FtfcModel::blank(0).regs,
        regs.ready(),
{
    assert(FSTAT_CCIF & FSTAT_CCIF != 0) by (bit_vector);
    FtfcRegisters {
        fstat: FSTAT_CCIF,
        fcnfg: 0,
        fsec: 0,
        fopt: 0,
        fccob3: 0,
        fccob2: 0,
        fccob1: 0,
        fccob0: 0,
        fccob7: 0,
        fccob6: 0,
        fccob5: 0,
        fccob4: 0,
        fccobb: 0,
        fccoba: 0,
        fccob9: 0,
        fccob8: 0,
        fprot3: 0xFF,
        fprot2: 0xFF,
        fprot1: 0xFF,
        fprot0: 0xFF,
        feprot: 0,
        fdprot: 0,
    }
}

/// An in-memory flash module that behaves as `FtfcModel` says.
pub struct FtfcDevice {
    regs: FtfcRegisters,
    memory: Vec<u8>,
    config: Vec<u8>,
    busy: u32,
    latency: u32,
    writes: Vec<BusWrite>,
}

impl View for FtfcDevice {
    type V = FtfcModel;

    closed spec fn view(&self) -> FtfcModel {
        FtfcModel {
            regs: self.regs,
            memory: self.memory@,
            config: self.config@,
            busy: self.busy as nat,
            latency: self.latency as nat,
            writes: self.writes@,
        }
    }
}

impl FtfcDevice {
    /// The device is in a state that the module can be in.
    pub open spec fn wf(&self) -> bool {
        self@.wf()
    }

    /// A device fresh from reset whose commands take `latency` status polls.
    pub fn new(latency: u32) -> (device: Self)
        ensures
            device.wf(),
            device@ == FtfcModel::blank(latency as nat),
    {
        let regs = reset_registers();
        let device = FtfcDevice {
            regs,
            memory: vec![ERASED_BYTE; FLASH_SIZE],
            config: vec![ERASED_BYTE; PAGE_SIZE],
            busy: 0,
            latency,
            writes: Vec::new(),
        };
        proof {
            assert(device@.memory =~= FtfcModel::blank(latency as nat).memory);
            assert(device@.config =~= FtfcModel::blank(latency as nat).config);
        }
        device
    }

    /// A device fresh from reset but for its contents: `memory` as the
    /// program array and `config` as the configuration sector. `None` where
    /// one of the two has the wrong size.
    pub fn with_image(memory: Vec<u8>, config: Vec<u8>, latency: u32) -> (device: Option<Self>)
        ensures
            memory.len() == FLASH_SIZE && config.len() == PAGE_SIZE <==> device is Some,
            device matches Some(device) ==> device.wf() && device@ == (FtfcModel {
                memory: memory@,
                config: config@,
                ..FtfcModel::blank(latency as nat)
            }),
    {
        if memory.len() != FLASH_SIZE || config.len() != PAGE_SIZE {
            return None;
        }
        Some(
            FtfcDevice {
                regs: reset_registers(),
                memory,
                config,
                busy: 0,
                latency,
                writes: Vec::new(),
            },
        )
    }

    /// A copy of the register file as it stands, without the side effects
    /// of a bus access.
    pub fn registers(&self) -> (regs: FtfcRegisters)
        ensures
            regs == self@.regs,
    {
        self.regs
    }

    /// Hands out the log of the writes that reached the device since the
    /// log was last taken, oldest first, and starts a new log.
    pub fn take_writes(&mut self) -> (writes: Vec<BusWrite>)
        requires
            old(self).wf(),
        ensures
            final(self).wf(),
            writes@ == old(self)@.writes,
            final(self)@ == old(self)@.unlogged(),
    {
        let mut writes = Vec::new();
        core::mem::swap(&mut self.writes, &mut writes);
        writes
    }

    /// Reads the status register. Each read is one status poll.
    pub fn read_fstat(&mut self) -> (fstat: u8)
        requires
            old(self).wf(),
        ensures
            final(self).wf(),
            final(self)@ == old(self)@.polled(),
            fstat == final(self)@.regs.fstat,
    {
        proof {
            lemma_ready_flag(self.regs.fstat);
        }
        if self.busy == 1 {
            self.busy = 0;
            self.regs.fstat = self.regs.fstat | FSTAT_CCIF;
        } else if self.busy > 1 {
            self.busy = self.busy - 1;
        }
        self.regs.fstat
    }

    /// Reads the configuration register.
    pub fn read_fcnfg(&self) -> (fcnfg: u8)
        ensures
            fcnfg == self@.regs.fcnfg,
    {
        self.regs.fcnfg
    }

    /// Writes the configuration register.
    pub fn write_fcnfg(&mut self, value: u8)
        requires
            old(self).wf(),
        ensures
            final(self).wf(),
            final(self)@ == old(self)@.fcnfg_written(value),
    {
        self.writes.push(BusWrite::Config(value));
        self.regs.fcnfg = value;
    }

    /// Writes command byte `index` (0 to 11).
    pub fn write_fccob(&mut self, index: usize, value: u8)
        requires
            old(self).wf(),
        ensures
            final(self).wf(),
            final(self)@ == old(self)@.fccob_written(index as int, value),
    {
        self.writes.push(BusWrite::CommandByte(index, value));
        if self.busy == 0 {
            if index == 0 {
                self.regs.fccob0 = value;
            } else if index == 1 {
                self.regs.fccob1 = value;
            } else if index == 2 {
                self.regs.fccob2 = value;
            } else if index == 3 {
                self.regs.fccob3 = value;
            } else if index == 4 {
                self.regs.fccob4 = value;
            } else if index == 5 {
                self.regs.fccob5 = value;
            } else if index == 6 {
                self.regs.fccob6 = value;
            } else if index == 7 {
                self.regs.fccob7 = value;
            } else if index == 8 {
                self.regs.fccob8 = value;
            } else if index == 9 {
                self.regs.fccob9 = value;
            } else if index == 10 {
                self.regs.fccoba = value;
            } else if index == 11 {
                self.regs.fccobb = value;
            }
        }
    }

    /// Writes protection register `index` (0 to 3).
    pub fn write_fprot(&mut self, index: usize, value: u8)
        requires
            old(self).wf(),
        ensures
            final(self).wf(),
            final(self)@ == old(self)@.fprot_written(index as int, value),
    {
        self.writes.push(BusWrite::Protection(index, value));
        if index == 0 {
            self.regs.fprot0 = self.regs.fprot0 & value;
        } else if index == 1 {
            self.regs.fprot1 = self.regs.fprot1 & value;
        } else if index == 2 {
            self.regs.fprot2 = self.regs.fprot2 & value;
        } else if index == 3 {
            self.regs.fprot3 = self.regs.fprot3 & value;
        }
    }

    /// Tells whether page `page` is protected.
    pub fn is_protected(&self, page: usize) -> (protected: bool)
        requires
            page < NUM_PAGES,
        ensures
            protected == page_protected(self@.regs, page as int),
    {
        let byte = if page < 32 {
            self.regs.fprot3
        } else if page < 64 {
            self.regs.fprot2
        } else if page < 96 {
            self.regs.fprot1
        } else {
            self.regs.fprot0
        };
        let bit: u8 = 1u8 << (((page / 4) % 8) as u8);
        byte & bit == 0
    }
}

/// Overwrites page `page` of `bytes` with erased bytes.
fn erase_in(bytes: &mut Vec<u8>, page: usize)
    requires
        (page + 1) * PAGE_SIZE <= old(bytes).len(),
    ensures
        final(bytes)@ == with_page(old(bytes)@, page as int, erased_page()),
{
    let base = page * PAGE_SIZE;
    let mut i: usize = 0;
    while i < PAGE_SIZE
        invariant
            i <= PAGE_SIZE,
            base == page * PAGE_SIZE,
            base + PAGE_SIZE <= bytes.len(),
            bytes.len() == old(bytes).len(),
            forall|j: int| base <= j < base + i ==> bytes@[j] == ERASED_BYTE,
            forall|j: int|
                0 <= j < base || base + i <= j < bytes.len() ==> bytes@[j] == old(bytes)@[j],
        decreases PAGE_SIZE - i,
    {
        bytes[base + i] = ERASED_BYTE;
        i = i + 1;
    }
    assert(bytes@ =~= with_page(old(bytes)@, page as int, erased_page()));
}

impl FtfcDevice {
    /// Raises the status flags of `mask`.
    fn flag(&mut self, mask: u8)
        ensures
            final(self)@ == old(self)@.flagged(mask),
    {
        self.regs.fstat = self.regs.fstat | mask;
    }

    /// Marks a command as accepted.
    fn start(&mut self)
        ensures
            final(self)@ == old(self)@.started(),
    {
        if self.latency != 0 {
            self.busy = self.latency;
            self.regs.fstat = self.regs.fstat & !FSTAT_CCIF;
        }
    }

    /// Runs the command that the command registers hold.
    fn launch(&mut self)
        requires
            old(self).wf(),
            old(self)@.idle(),
        ensures
            final(self).wf(),
            final(self)@ == old(self)@.launched(),
    {
        proof {
            lemma_flag_keeps_ready(self.regs.fstat);
            lemma_ready_flag(self.regs.fstat);
        }
        let address = self.regs.address();
        if self.regs.fstat & (FSTAT_ACCERR | FSTAT_FPVIOL) != 0 {
            self.flag(FSTAT_ACCERR);
        } else if self.regs.fccob0 == CMD_ERASE_SECTOR {
            if address as usize >= FLASH_SIZE || address as usize % PAGE_SIZE != 0 {
                self.flag(FSTAT_ACCERR);
            } else {
                let page = address as usize / PAGE_SIZE;
                if self.is_protected(page) {
                    self.flag(FSTAT_FPVIOL);
                } else {
                    erase_in(&mut self.memory, page);
                    self.start();
                }
            }
        } else if self.regs.fccob0 == CMD_ERASE_CONFIG {
            if address != CONFIG_SECTOR {
                self.flag(FSTAT_ACCERR);
            } else {
                erase_in(&mut self.config, 0);
                assert(self.config@ =~= erased_page());
                self.start();
            }
        } else {
            self.flag(FSTAT_ACCERR);
        }
    }

    /// Writes the status register.
    pub fn write_fstat(&mut self, value: u8)
        requires
            old(self).wf(),
        ensures
            final(self).wf(),
            final(self)@ == old(self)@.fstat_written(value),
    {
        proof {
            lemma_clear_keeps_ready(self.regs.fstat, value);
        }
        self.writes.push(BusWrite::Status(value));
        self.regs.fstat = self.regs.fstat & !(value & FSTAT_ERRORS);
        if value & FSTAT_CCIF != 0 && self.busy == 0 {
            self.launch();
        }
    }

    /// Reads the array byte at `address` over the memory map.
    pub fn read_byte(&mut self, address: usize) -> (byte: u8)
        requires
            old(self).wf(),
            address < FLASH_SIZE,
        ensures
            final(self).wf(),
            final(self)@ == old(self)@.byte_read(address as int),
            byte == old(self)@.memory[address as int],
    {
        proof {
            lemma_flag_keeps_ready(self.regs.fstat);
        }
        if self.busy != 0 {
            self.flag(FSTAT_RDCOLERR);
        }
        self.memory[address]
    }

    /// Programs `value` at `address` over the memory map.
    pub fn program_byte(&mut self, address: usize, value: u8)
        requires
            old(self).wf(),
            address < FLASH_SIZE,
        ensures
            final(self).wf(),
            final(self)@ == old(self)@.byte_programmed(address as int, value),
    {
        proof {
            lemma_flag_keeps_ready(self.regs.fstat);
        }
        self.writes.push(BusWrite::Program(address, value));
        if self.busy != 0 {
            self.flag(FSTAT_RDCOLERR);
        } else if self.is_protected(address / PAGE_SIZE) {
            self.flag(FSTAT_FPVIOL);
        } else {
            let old_byte = self.memory[address];
            self.memory[address] = old_byte & value;
        }
    }

    /// The array byte at `address`, looked at from outside the bus: no flag
    /// changes.
    pub fn peek(&self, address: usize) -> (byte: u8)
        requires
            self.wf(),
            address < FLASH_SIZE,
        ensures
            byte == self@.memory[address as int],
    {
        self.memory[address]
    }

    /// The byte at `offset` of the configuration sector, looked at from
    /// outside the bus.
    pub fn peek_config(&self, offset: usize) -> (byte: u8)
        requires
            self.wf(),
            offset < PAGE_SIZE,
        ensures
            byte == self@.config[offset as int],
    {
        self.config[offset]
    }
}

} // verus!
