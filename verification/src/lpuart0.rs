//! Low-power UART 0: buffer transfers that advance one byte with each
//! interrupt.

use vstd::prelude::*;
use crate::error::ErrorCode;

verus! {

/// BAUD bits 12:0: the baud rate modulo divisor.
pub const BAUD_SBR: u32 = 0x1FFF;

/// STAT bit 21: receive data register full.
pub const STAT_RDRF: u32 = 0x200000;

/// STAT bit 23: transmit data register empty.
pub const STAT_TDRE: u32 = 0x800000;

/// CTRL bit 18: receiver enable.
pub const CTRL_RE: u32 = 0x40000;

/// CTRL bit 19: transmitter enable.
pub const CTRL_TE: u32 = 0x80000;

/// CTRL bit 21: receiver interrupt enable.
pub const CTRL_RIE: u32 = 0x200000;

/// CTRL bit 22: transmission complete interrupt enable.
pub const CTRL_TCIE: u32 = 0x400000;

/// CTRL bit 23: transmit interrupt enable.
pub const CTRL_TIE: u32 = 0x800000;

/// The registers of the UART.
#[derive(Clone, Copy, Debug, PartialEq, Eq, Structural)]
pub struct LpuartRegisters {
    pub verid: u32,
    pub param: u32,
    pub global: u32,
    pub pincfg: u32,
    pub baud: u32,
    pub stat: u32,
    pub ctrl: u32,
    pub data: u32,
    pub match_: u32,
    pub modir: u32,
    pub fifo: u32,
    pub water: u32,
}

impl LpuartRegisters {
    /// Every register reads zero.
    pub open spec fn zeroed(self) -> bool {
        &&& self.verid == 0
        &&& self.param == 0
        &&& self.global == 0
        &&& self.pincfg == 0
        &&& self.baud == 0
        &&& self.stat == 0
        &&& self.ctrl == 0
        &&& self.data == 0
        &&& self.match_ == 0
        &&& self.modir == 0
        &&& self.fifo == 0
        &&& self.water == 0
    }
}

/// A buffer that a transfer is done with, and the length that was asked
/// for. It goes back to the client with the result `Ok`.
#[derive(Debug, PartialEq, Eq)]
pub struct Transfer {
    pub buffer: Vec<u8>,
    pub len: usize,
}

/// The callbacks that one interrupt raised, in the order in which the
/// clients are told.
#[derive(Debug, PartialEq, Eq)]
pub struct UartInterrupt {
    /// The transmit client's `transmitted_buffer` is owed.
    pub transmitted: Option<Transfer>,
    /// The receive client's `received_buffer` is owed.
    pub received: Option<Transfer>,
}

/// One direction of the UART: the buffer in flight, the length asked for,
/// and how far the transfer has come.
pub struct Channel {
    pub buffer: Option<Seq<u8>>,
    pub len: usize,
    pub position: usize,
}

impl Channel {
    /// The length asked for lies within the buffer in flight.
    pub open spec fn wf(self) -> bool {
        self.buffer matches Some(bytes) ==> self.len <= bytes.len()
    }

    /// The channel has a byte left to send.
    pub open spec fn has_next(self) -> bool {
        self.buffer is Some && self.position < self.len
    }

    /// The channel after one interrupt: one byte further, or without its
    /// buffer once the position has reached the length.
    pub open spec fn stepped(self) -> Channel {
        if self.buffer is None {
            self
        } else if self.position < self.len {
            Channel { position: (self.position + 1) as usize, ..self }
        } else {
            Channel { buffer: None, ..self }
        }
    }

    /// The channel after it took `bytes` for a transfer of `len` bytes.
    pub open spec fn loaded(bytes: Seq<u8>, len: usize) -> Channel {
        Channel { buffer: Some(bytes), len, position: 0 }
    }
}

/// The driver's state as a value.
pub struct LpuartView {
    pub registers: LpuartRegisters,
    pub tx: Channel,
    pub rx: Channel,
}

impl LpuartView {
    /// Both channels are well formed.
    pub open spec fn wf(self) -> bool {
        self.tx.wf() && self.rx.wf()
    }

    /// The registers after `channel` was served while the transmit data
    /// register was empty: its next byte is in the data register, or, with
    /// no byte left, the interrupts of `mask` are off.
    pub open spec fn served(registers: LpuartRegisters, channel: Channel, mask: u32)
        -> LpuartRegisters {
        match channel.buffer {
            None => registers,
            Some(bytes) => if channel.position < channel.len {
                LpuartRegisters { data: bytes[channel.position as int] as u32, ..registers }
            } else {
                LpuartRegisters { ctrl: registers.ctrl & !mask, ..registers }
            },
        }
    }

    /// The transmit data register is empty.
    pub open spec fn transmit_empty(self) -> bool {
        self.registers.stat & STAT_TDRE != 0
    }

    /// The driver after the transmit half of an interrupt.
    pub open spec fn transmit_served(self) -> LpuartView {
        if self.transmit_empty() {
            LpuartView {
                registers: Self::served(self.registers, self.tx, CTRL_TIE | CTRL_TCIE),
                tx: self.tx.stepped(),
                ..self
            }
        } else {
            self
        }
    }

    /// The driver after the receive half of an interrupt.
    pub open spec fn receive_served(self) -> LpuartView {
        if self.transmit_empty() {
            LpuartView {
                registers: Self::served(self.registers, self.rx, CTRL_RIE),
                rx: self.rx.stepped(),
                ..self
            }
        } else {
            self
        }
    }

    /// The transfer that an interrupt finishes on `channel`: the one in
    /// flight, if the transmit data register is empty and no byte is left.
    pub open spec fn finished(self, channel: Channel) -> Option<(Seq<u8>, usize)> {
        match channel.buffer {
            Some(bytes) => if self.transmit_empty() && channel.position >= channel.len {
                Some((bytes, channel.len))
            } else {
                None
            },
            None => None,
        }
    }
}

/// The transfer that `event` hands back is `expected`.
pub open spec fn hands_back(event: Option<Transfer>, expected: Option<(Seq<u8>, usize)>) -> bool {
    match event {
        Some(transfer) => expected == Some((transfer.buffer@, transfer.len)),
        None => expected is None,
    }
}

/// The UART driver.
pub struct Lpuart0 {
    registers: LpuartRegisters,
    tx_buffer: Option<Vec<u8>>,
    rx_buffer: Option<Vec<u8>>,
    tx_len: usize,
    rx_len: usize,
    tx_position: usize,
    rx_position: usize,
}

impl View for Lpuart0 {
    type V = LpuartView;

    closed spec fn view(&self) -> LpuartView {
        LpuartView {
            registers: self.registers,
            tx: Channel {
                buffer: match self.tx_buffer {
                    Some(bytes) => Some(bytes@),
                    None => None,
                },
                len: self.tx_len,
                position: self.tx_position,
            },
            rx: Channel {
                buffer: match self.rx_buffer {
                    Some(bytes) => Some(bytes@),
                    None => None,
                },
                len: self.rx_len,
                position: self.rx_position,
            },
        }
    }
}

impl Lpuart0 {
    /// See `LpuartView::wf`.
    pub open spec fn wf(&self) -> bool {
        self@.wf()
    }

    /// The driver with the registers replaced by `registers`.
    pub open spec fn with_registers(self, registers: LpuartRegisters) -> LpuartView {
        LpuartView { registers, ..self@ }
    }

    /// A driver over the registers `regs`, with no transfer in flight.
    pub fn new(regs: LpuartRegisters) -> (uart: Lpuart0)
        ensures
            uart.wf(),
            uart@ == (LpuartView {
                registers: regs,
                tx: Channel { buffer: None, len: 0, position: 0 },
                rx: Channel { buffer: None, len: 0, position: 0 },
            }),
    {
        Lpuart0 {
            registers: regs,
            tx_buffer: None,
            rx_buffer: None,
            tx_len: 0,
            rx_len: 0,
            tx_position: 0,
            rx_position: 0,
        }
    }

    /// The registers as they stand.
    pub fn registers(&self) -> (registers: LpuartRegisters)
        ensures
            registers == self@.registers,
    {
        self.registers
    }

    /// Puts `registers` in the place of the driver's registers, as the
    /// hardware does when a flag changes.
    pub fn set_registers(&mut self, registers: LpuartRegisters)
        ensures
            final(self)@ == old(self).with_registers(registers),
    {
        self.registers = registers;
    }

    /// Sets the bits of `mask` in the control register.
    fn set_control(&mut self, mask: u32)
        ensures
            final(self)@ == old(self).with_registers(
                LpuartRegisters { ctrl: old(self)@.registers.ctrl | mask, ..old(self)@.registers },
            ),
    {
        self.registers.ctrl = self.registers.ctrl | mask;
    }

    /// Clears the bits of `mask` in the control register.
    fn clear_control(&mut self, mask: u32)
        ensures
            final(self)@ == old(self).with_registers(
                LpuartRegisters { ctrl: old(self)@.registers.ctrl & !mask, ..old(self)@.registers },
            ),
    {
        self.registers.ctrl = self.registers.ctrl & !mask;
    }

    /// Enables the transmitter and the receiver.
    pub fn enable(&mut self)
        ensures
            final(self)@ == old(self).with_registers(
                LpuartRegisters {
                    ctrl: old(self)@.registers.ctrl | (CTRL_TE | CTRL_RE),
                    ..old(self)@.registers
                },
            ),
    {
        self.set_control(CTRL_TE | CTRL_RE);
    }

    /// Disables the transmitter and the receiver.
    pub fn disable(&mut self)
        ensures
            final(self)@ == old(self).with_registers(
                LpuartRegisters {
                    ctrl: old(self)@.registers.ctrl & !(CTRL_TE | CTRL_RE),
                    ..old(self)@.registers
                },
            ),
    {
        self.clear_control(CTRL_TE | CTRL_RE);
    }

    /// Enables the receiver interrupt.
    pub fn enable_rx_interrupts(&mut self)
        ensures
            final(self)@ == old(self).with_registers(
                LpuartRegisters {
                    ctrl: old(self)@.registers.ctrl | CTRL_RIE,
                    ..old(self)@.registers
                },
            ),
    {
        self.set_control(CTRL_RIE);
    }

    /// Enables the transmit and the transmission complete interrupts.
    pub fn enable_tx_interrupts(&mut self)
        ensures
            final(self)@ == old(self).with_registers(
                LpuartRegisters {
                    ctrl: old(self)@.registers.ctrl | (CTRL_TIE | CTRL_TCIE),
                    ..old(self)@.registers
                },
            ),
    {
        self.set_control(CTRL_TIE | CTRL_TCIE);
    }

    /// Disables the receiver interrupt.
    pub fn disable_rx_interrupts(&mut self)
        ensures
            final(self)@ == old(self).with_registers(
                LpuartRegisters {
                    ctrl: old(self)@.registers.ctrl & !CTRL_RIE,
                    ..old(self)@.registers
                },
            ),
    {
        self.clear_control(CTRL_RIE);
    }

    /// Disables the transmit and the transmission complete interrupts.
    pub fn disable_tx_interrupts(&mut self)
        ensures
            final(self)@ == old(self).with_registers(
                LpuartRegisters {
                    ctrl: old(self)@.registers.ctrl & !(CTRL_TIE | CTRL_TCIE),
                    ..old(self)@.registers
                },
            ),
    {
        self.clear_control(CTRL_TIE | CTRL_TCIE);
    }

    /// The transmit half of the interrupt.
    fn serve_transmit(&mut self) -> (event: Option<Transfer>)
        requires
            old(self).wf(),
        ensures
            final(self).wf(),
            final(self)@ == old(self)@.transmit_served(),
            hands_back(event, old(self)@.finished(old(self)@.tx)),
    {
        if self.registers.stat & STAT_TDRE == 0 {
            return None;
        }
        match self.tx_buffer.take() {
            None => None,
            Some(buffer) => {
                let position = self.tx_position;
                if position < self.tx_len {
                    self.registers.data = buffer[position] as u32;
                    self.tx_position = position + 1;
                    self.tx_buffer = Some(buffer);
                    None
                } else {
                    self.disable_tx_interrupts();
                    Some(Transfer { buffer, len: self.tx_len })
                }
            },
        }
    }

    /// The receive half of the interrupt.
    fn serve_receive(&mut self) -> (event: Option<Transfer>)
        requires
            old(self).wf(),
        ensures
            final(self).wf(),
            final(self)@ == old(self)@.receive_served(),
            hands_back(event, old(self)@.finished(old(self)@.rx)),
    {
        if self.registers.stat & STAT_TDRE == 0 {
            return None;
        }
        match self.rx_buffer.take() {
            None => None,
            Some(buffer) => {
                let position = self.rx_position;
                if position < self.rx_len {
                    self.registers.data = buffer[position] as u32;
                    self.rx_position = position + 1;
                    self.rx_buffer = Some(buffer);
                    None
                } else {
                    self.disable_rx_interrupts();
                    Some(Transfer { buffer, len: self.rx_len })
                }
            },
        }
    }

    /// Serves the UART's interrupt.
    ///
    /// While the transmit data register is empty, each channel with a
    /// buffer in flight moves on, the transmit channel first: its next byte
    /// goes to the data register; with no byte left, the channel's
    /// interrupts go off and its buffer is handed back with the length that
    /// was asked for.
    pub fn handle_interrupt(&mut self) -> (events: UartInterrupt)
        requires
            old(self).wf(),
        ensures
            final(self).wf(),
            final(self)@ == old(self)@.transmit_served().receive_served(),
            hands_back(events.transmitted, old(self)@.finished(old(self)@.tx)),
            hands_back(
                events.received,
                old(self)@.transmit_served().finished(old(self)@.rx),
            ),
    {
        let transmitted = self.serve_transmit();
        let received = self.serve_receive();
        UartInterrupt { transmitted, received }
    }

    /// Starts the transmission of the first `len` bytes of `buffer` and
    /// keeps the buffer until they are sent.
    ///
    /// A length of 0 or beyond the buffer is `InvalidSize`; a transmission
    /// in flight is `Busy`. In both cases nothing changes and the buffer
    /// comes back.
    pub fn transmit_buffer(&mut self, buffer: Vec<u8>, len: usize) -> (result: Result<
        (),
        (ErrorCode, Vec<u8>),
    >)
        requires
            old(self).wf(),
        ensures
            final(self).wf(),
            len == 0 || len > buffer.len() ==> result == Err::<(), (ErrorCode, Vec<u8>)>(
                (ErrorCode::InvalidSize, buffer),
            ) && final(self)@ == old(self)@,
            0 < len <= buffer.len() && old(self)@.tx.buffer is Some ==> result == Err::<
                (),
                (ErrorCode, Vec<u8>),
            >((ErrorCode::Busy, buffer)) && final(self)@ == old(self)@,
            0 < len <= buffer.len() && old(self)@.tx.buffer is None ==> result is Ok
                && final(self)@ == (LpuartView {
                registers: LpuartRegisters {
                    ctrl: old(self)@.registers.ctrl | (CTRL_TIE | CTRL_TCIE),
                    ..old(self)@.registers
                },
                tx: Channel::loaded(buffer@, len),
                ..old(self)@
            }),
    {
        if len == 0 || len > buffer.len() {
            return Err((ErrorCode::InvalidSize, buffer));
        }
        if self.tx_buffer.is_some() {
            return Err((ErrorCode::Busy, buffer));
        }
        self.tx_buffer = Some(buffer);
        self.tx_len = len;
        self.tx_position = 0;
        self.enable_tx_interrupts();
        Ok(())
    }

    /// Sends one word: writes it to the data register. `Busy` while the
    /// transmit data register is not empty.
    pub fn transmit_word(&mut self, word: u32) -> (result: Result<(), ErrorCode>)
        ensures
            !old(self)@.transmit_empty() ==> result == Err::<(), ErrorCode>(ErrorCode::Busy)
                && final(self)@ == old(self)@,
            old(self)@.transmit_empty() ==> result is Ok && final(self)@ == (LpuartView {
                registers: LpuartRegisters { data: word, ..old(self)@.registers },
                ..old(self)@
            }),
    {
        if self.registers.stat & STAT_TDRE == 0 {
            return Err(ErrorCode::Busy);
        }
        self.registers.data = word;
        Ok(())
    }

    /// Gives up on the transmission: turns the transmit interrupts off.
    /// The result is always `Fail`.
    pub fn transmit_abort(&mut self) -> (result: Result<(), ErrorCode>)
        ensures
            result == Err::<(), ErrorCode>(ErrorCode::Fail),
            final(self)@ == old(self).with_registers(
                LpuartRegisters {
                    ctrl: old(self)@.registers.ctrl & !(CTRL_TIE | CTRL_TCIE),
                    ..old(self)@.registers
                },
            ),
    {
        self.disable_tx_interrupts();
        Err(ErrorCode::Fail)
    }

    /// Starts the reception of `len` bytes into `buffer` and keeps the
    /// buffer until they are in.
    ///
    /// A length of 0 or beyond the buffer is `InvalidSize`; a reception in
    /// flight is `Busy`. In both cases nothing changes and the buffer comes
    /// back.
    pub fn receive_buffer(&mut self, buffer: Vec<u8>, len: usize) -> (result: Result<
        (),
        (ErrorCode, Vec<u8>),
    >)
        requires
            old(self).wf(),
        ensures
            final(self).wf(),
            len == 0 || len > buffer.len() ==> result == Err::<(), (ErrorCode, Vec<u8>)>(
                (ErrorCode::InvalidSize, buffer),
            ) && final(self)@ == old(self)@,
            0 < len <= buffer.len() && old(self)@.rx.buffer is Some ==> result == Err::<
                (),
                (ErrorCode, Vec<u8>),
            >((ErrorCode::Busy, buffer)) && final(self)@ == old(self)@,
            0 < len <= buffer.len() && old(self)@.rx.buffer is None ==> result is Ok
                && final(self)@ == (LpuartView {
                registers: LpuartRegisters {
                    ctrl: old(self)@.registers.ctrl | CTRL_RIE,
                    ..old(self)@.registers
                },
                rx: Channel::loaded(buffer@, len),
                ..old(self)@
            }),
    {
        if len == 0 || len > buffer.len() {
            return Err((ErrorCode::InvalidSize, buffer));
        }
        if self.rx_buffer.is_some() {
            return Err((ErrorCode::Busy, buffer));
        }
        self.rx_buffer = Some(buffer);
        self.rx_len = len;
        self.rx_position = 0;
        self.enable_rx_interrupts();
        Ok(())
    }

    /// Takes one word off the receiver: `Fail` while the receive data
    /// register is not full. The word itself is dropped.
    pub fn receive_word(&self) -> (result: Result<(), ErrorCode>)
        ensures
            result == if self@.registers.stat & STAT_RDRF != 0 {
                Ok::<(), ErrorCode>(())
            } else {
                Err::<(), ErrorCode>(ErrorCode::Fail)
            },
    {
        if self.registers.stat & STAT_RDRF == 0 {
            return Err(ErrorCode::Fail);
        }
        Ok(())
    }

    /// Gives up on the reception: turns the receiver interrupt off. The
    /// result is always `Fail`.
    pub fn receive_abort(&mut self) -> (result: Result<(), ErrorCode>)
        ensures
            result == Err::<(), ErrorCode>(ErrorCode::Fail),
            final(self)@ == old(self).with_registers(
                LpuartRegisters {
                    ctrl: old(self)@.registers.ctrl & !CTRL_RIE,
                    ..old(self)@.registers
                },
            ),
    {
        self.disable_rx_interrupts();
        Err(ErrorCode::Fail)
    }

    /// Sets the baud rate divisor to the low 13 bits of `baud_rate`.
    /// Always succeeds.
    pub fn configure(&mut self, baud_rate: u32) -> (result: Result<(), ErrorCode>)
        ensures
            result is Ok,
            final(self)@ == old(self).with_registers(
                LpuartRegisters {
                    baud: (old(self)@.registers.baud & !BAUD_SBR) | (baud_rate & BAUD_SBR),
                    ..old(self)@.registers
                },
            ),
    {
        self.registers.baud = (self.registers.baud & !BAUD_SBR) | (baud_rate & BAUD_SBR);
        Ok(())
    }
}

} // verus!
