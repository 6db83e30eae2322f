use s32k144::clock::{Clock, Peripheral, SystemClockSource};

const ALL: [Peripheral; 9] = [
    Peripheral::LPUART0,
    Peripheral::FTM0,
    Peripheral::LPIT,
    Peripheral::LPTMR0,
    Peripheral::PORTA,
    Peripheral::PORTB,
    Peripheral::PORTC,
    Peripheral::PORTD,
    Peripheral::PORTE,
];

fn gates(clock: &Clock) -> [u32; 9] {
    let pcc = &clock.pcc_registers;
    [
        pcc.lpuart0, pcc.ftm0, pcc.lpit, pcc.lptmr0, pcc.porta, pcc.portb, pcc.portc, pcc.portd,
        pcc.porte,
    ]
}

#[test]
fn peripheral_clock_gate_is_bit_30_of_its_own_register() {
    for (index, peripheral) in ALL.iter().enumerate() {
        let mut clock = Clock::new();
        clock.enable_peripheral_clock(*peripheral);
        let mut expected = [0u32; 9];
        expected[index] = 0x4000_0000;
        assert_eq!(gates(&clock), expected);
        assert_eq!(clock.pcc_registers.ftfc, 0);
        clock.disable_peripheral_clock(*peripheral);
        assert_eq!(gates(&clock), [0u32; 9]);
    }
}

#[test]
fn peripheral_clock_keeps_the_other_bits() {
    let mut clock = Clock::new();
    clock.pcc_registers.lpit = 0x8600_0001;
    clock.enable_peripheral_clock(Peripheral::LPIT);
    assert_eq!(clock.pcc_registers.lpit, 0xC600_0001);
    clock.enable_peripheral_clock(Peripheral::LPIT);
    assert_eq!(clock.pcc_registers.lpit, 0xC600_0001);
    clock.disable_peripheral_clock(Peripheral::LPIT);
    assert_eq!(clock.pcc_registers.lpit, 0x8600_0001);
}

#[test]
fn system_clock_source_goes_to_bits_27_to_24() {
    let mut clock = Clock::new();
    clock.set_system_clock(SystemClockSource::SystemOscillator);
    assert_eq!(clock.scg_registers.rccr, 0x0100_0000);
    clock.set_system_clock(SystemClockSource::SlowIRC);
    assert_eq!(clock.scg_registers.rccr, 0x0200_0000);
    clock.set_system_clock(SystemClockSource::FastIRC);
    assert_eq!(clock.scg_registers.rccr, 0x0300_0000);
    clock.set_system_clock(SystemClockSource::SystemPLL);
    assert_eq!(clock.scg_registers.rccr, 0x0600_0000);
    clock.scg_registers.rccr = 0xFFFF_FFFF;
    clock.set_system_clock(SystemClockSource::SlowIRC);
    assert_eq!(clock.scg_registers.rccr, 0xF2FF_FFFF);
    assert_eq!(clock.scg_registers.csr, 0);
}

#[test]
fn system_clock_source_is_read_from_the_status_register() {
    let mut clock = Clock::new();
    let cases = [
        (0x0100_0000u32, SystemClockSource::SystemOscillator),
        (0x0200_0000, SystemClockSource::SlowIRC),
        (0x0300_0000, SystemClockSource::FastIRC),
        (0x0600_0000, SystemClockSource::SystemPLL),
        (0x0000_0000, SystemClockSource::SlowIRC),
        (0x0400_0000, SystemClockSource::SlowIRC),
        (0x0F00_0000, SystemClockSource::SlowIRC),
        (0xF3FF_FFFF, SystemClockSource::FastIRC),
        (0x1600_0001, SystemClockSource::SystemPLL),
    ];
    for (csr, expected) in cases {
        clock.scg_registers.csr = csr;
        assert_eq!(clock.get_system_clock(), expected, "csr {:#x}", csr);
    }
}

#[test]
fn oscillators_start_and_stop_by_bit_0() {
    let mut clock = Clock::new();
    clock.scg_registers.sosccsr = 0x0000_0100;
    clock.start_system_oscillator();
    assert_eq!(clock.scg_registers.sosccsr, 0x0000_0101);
    clock.stop_system_oscillator();
    assert_eq!(clock.scg_registers.sosccsr, 0x0000_0100);
    clock.start_slow_irc();
    assert_eq!(clock.scg_registers.sirccsr, 1);
    clock.start_fast_irc();
    assert_eq!(clock.scg_registers.firccsr, 1);
    clock.start_system_pll();
    assert_eq!(clock.scg_registers.spllcsr, 1);
    clock.stop_slow_irc();
    clock.stop_fast_irc();
    clock.stop_system_pll();
    assert_eq!(clock.scg_registers.sirccsr, 0);
    assert_eq!(clock.scg_registers.firccsr, 0);
    assert_eq!(clock.scg_registers.spllcsr, 0);
}

#[test]
fn oscillator_runs_when_bit_24_is_set() {
    let mut clock = Clock::new();
    assert!(!clock.is_system_oscillator_running());
    assert!(!clock.is_slow_irc_running());
    assert!(!clock.is_fast_irc_running());
    assert!(!clock.is_system_pll_running());
    clock.scg_registers.sosccsr = 0x0100_0000;
    clock.scg_registers.sirccsr = 0x0100_0001;
    clock.scg_registers.firccsr = 0xFEFF_FFFF;
    clock.scg_registers.spllcsr = 0xFFFF_FFFF;
    assert!(clock.is_system_oscillator_running());
    assert!(clock.is_slow_irc_running());
    assert!(!clock.is_fast_irc_running());
    assert!(clock.is_system_pll_running());
}

#[test]
fn low_and_high_clocks_are_the_two_internal_ones() {
    let mut clock = Clock::new();
    clock.low_start();
    clock.high_start();
    assert_eq!(clock.scg_registers.sirccsr, 1);
    assert_eq!(clock.scg_registers.firccsr, 1);
    assert!(!clock.low_started());
    assert!(!clock.high_started());
    clock.scg_registers.sirccsr |= 0x0100_0000;
    assert!(clock.low_started());
    assert!(!clock.high_started());
    clock.scg_registers.firccsr |= 0x0100_0000;
    assert!(clock.high_started());
    clock.low_stop();
    clock.high_stop();
    assert_eq!(clock.scg_registers.sirccsr, 0x0100_0000);
    assert_eq!(clock.scg_registers.firccsr, 0x0100_0000);
}
