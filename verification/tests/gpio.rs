use s32k144::ftm0::Pwm;
use s32k144::error::ErrorCode;
use s32k144::gpio::{s32k144_gpio_create, Configuration, FloatingState, GPIOPin, GpioRegisters};
use s32k144::gpio::{InterruptEdge, Pin};
use s32k144::pinmux::{Pinmux, PortRegisters, UsedPins};
use s32k144::rgb_led::RgbLed;

fn zeroed() -> GpioRegisters {
    GpioRegisters { pdor: 0, psor: 0, pcor: 0, ptor: 0, pdir: 0, pddr: 0, pidr: 0 }
}

#[test]
fn pin_numbers_run_from_0_to_47() {
    assert_eq!(Pin::PTA0.index(), 0);
    assert_eq!(Pin::PTA15.index(), 15);
    assert_eq!(Pin::PTB0.index(), 16);
    assert_eq!(Pin::PTC0.index(), 24);
    assert_eq!(Pin::PTC7.index(), 31);
    assert_eq!(Pin::PTD0.index(), 32);
    assert_eq!(Pin::PTE7.index(), 47);
}

#[test]
fn pin_bit_wraps_at_the_register_width() {
    assert_eq!(Pin::PTA0.bit(), 0x0000_0001);
    assert_eq!(Pin::PTA5.bit(), 0x0000_0020);
    assert_eq!(Pin::PTC7.bit(), 0x8000_0000);
    assert_eq!(Pin::PTD0.bit(), 0x0000_0001);
    assert_eq!(Pin::PTD7.bit(), 0x0000_0080);
    assert_eq!(Pin::PTE0.bit(), 0x0000_0100);
    assert_eq!(Pin::PTE7.bit(), 0x0000_8000);
}

#[test]
fn gpio_create_places_each_pin_at_its_number() {
    let port = s32k144_gpio_create();
    assert_eq!(port.pins.len(), 48);
    for (index, gpio) in port.pins.iter().enumerate() {
        assert_eq!(gpio.pin.index() as usize, index);
        assert_eq!(gpio.registers, zeroed());
    }
    assert_eq!(port.pins[32].pin, Pin::PTD0);
    assert_eq!(port.pins[25].pin, Pin::PTC1);
}

#[test]
fn direction_is_the_pins_bit_of_pddr() {
    let mut gpio = GPIOPin::new(Pin::PTA3, GpioRegisters { pddr: 0x100, ..zeroed() });
    gpio.enable_output();
    assert_eq!(gpio.registers, GpioRegisters { pddr: 0x108, ..zeroed() });
    gpio.enable_input();
    assert_eq!(gpio.registers, GpioRegisters { pddr: 0x100, ..zeroed() });
    assert_eq!(gpio.make_output(), Configuration::Output);
    assert_eq!(gpio.registers.pddr, 0x108);
    assert_eq!(gpio.make_input(), Configuration::Input);
    assert_eq!(gpio.registers.pddr, 0x100);
    gpio.registers.pddr = 0xFFFF_FFFF;
    assert_eq!(gpio.disable_output(), Configuration::LowPower);
    assert_eq!(gpio.registers.pddr, 0xFFFF_FFF7);
    gpio.registers.pddr = 0x0000_000F;
    assert_eq!(gpio.disable_input(), Configuration::LowPower);
    assert_eq!(gpio.registers.pddr, 0x0000_0007);
}

#[test]
fn output_goes_through_the_set_clear_and_toggle_registers() {
    let mut gpio = GPIOPin::new(Pin::PTB1, zeroed());
    gpio.set_high();
    assert_eq!(gpio.registers, GpioRegisters { psor: 0x0002_0000, ..zeroed() });
    gpio.set_low();
    assert_eq!(
        gpio.registers,
        GpioRegisters { psor: 0x0002_0000, pcor: 0x0002_0000, ..zeroed() }
    );
    gpio.registers.ptor = 0xFFFF;
    gpio.toggle();
    assert_eq!(gpio.registers.ptor, 0x0002_0000);
    gpio.registers.ptor = 0;
    assert!(!gpio.toggle_and_read());
    assert_eq!(gpio.registers.ptor, 0x0002_0000);
    gpio.registers.pdir = 0x0002_0000;
    assert!(gpio.toggle_and_read());
    gpio.registers.pdir = 0;
    assert_eq!(gpio.registers.pdor, 0);
}

#[test]
fn input_is_the_pins_bit_of_pdir() {
    let mut gpio = GPIOPin::new(Pin::PTD0, zeroed());
    assert!(!gpio.read());
    assert!(!gpio.is_pending());
    assert_eq!(gpio.configuration(), Configuration::Output);
    gpio.registers.pdir = 0xFFFF_FFFE;
    assert!(!gpio.read());
    gpio.registers.pdir = 0x0000_0001;
    assert!(gpio.read());
    assert!(gpio.is_pending());
    assert_eq!(gpio.configuration(), Configuration::Input);
    assert_eq!(gpio.floating_state(), FloatingState::PullNone);
}

#[test]
fn interrupt_modes_overwrite_the_direction_register() {
    let mut gpio = GPIOPin::new(Pin::PTA4, GpioRegisters { pddr: 0xFF00, ..zeroed() });
    gpio.enable_interrupts(InterruptEdge::RisingEdge);
    assert_eq!(gpio.registers.pddr, 0x10);
    gpio.registers.pddr = 0xFF00;
    gpio.enable_interrupts(InterruptEdge::FallingEdge);
    assert_eq!(gpio.registers.pddr, 0);
    gpio.registers.pddr = 0xFF00;
    gpio.enable_interrupts(InterruptEdge::EitherEdge);
    assert_eq!(gpio.registers.pddr, 0x10);
    gpio.disable_interrupts();
    assert_eq!(gpio.registers.pddr, 0);
}

#[test]
fn pinmux_hands_each_pin_out_once() {
    let mut used = UsedPins::new();
    assert_eq!(used.ports, [0, 0, 0, 0, 0]);
    assert!(!used.is_used(3, 15));
    let pin = Pinmux::new(3, 15, &mut used);
    assert_eq!(pin.port_pin(), (3, 15));
    let pair: (usize, usize) = pin.into();
    assert_eq!(pair, (3, 15));
    assert!(used.is_used(3, 15));
    assert!(!used.is_used(3, 14));
    assert!(!used.is_used(2, 15));
    assert_eq!(used.ports, [0, 0, 0, 0x8000, 0]);
    Pinmux::new(3, 0, &mut used);
    Pinmux::new(0, 31, &mut used);
    Pinmux::new(4, 7, &mut used);
    assert_eq!(used.ports, [0x8000_0000, 0, 0, 0x8001, 0x80]);
}

fn ports() -> [PortRegisters; 5] {
    [PortRegisters { pcr: [0x0000_0703; 32] }; 5]
}

#[test]
fn pwm_computes_top_and_duty_counts() {
    let mut used = UsedPins::new();
    let pin = Pinmux::new(2, 1, &mut used);
    let mut pwm = Pwm::new();
    let mut port_regs = ports();
    pwm.registers.sc = 0xFFFF_FFFF;
    assert_eq!(pwm.start_pwm(pin, 1000, 25, &mut port_regs), Ok(()));
    assert_eq!(pwm.registers.sc, 0xFFFF_FFE8);
    assert_eq!(pwm.registers.mod_, 16000);
    assert_eq!(pwm.registers.cv, [0, 4000, 0, 0, 0, 0, 0, 0]);
    assert_eq!(pwm.registers.csc, [0, 0x28, 0, 0, 0, 0, 0, 0]);
    assert_eq!(pwm.registers.pwmload, 0x200);
    assert_eq!(pwm.registers.sync, 0x80);
    assert_eq!(port_regs[2].pcr[1], 0x0000_0203);
    assert_eq!(port_regs[2].pcr[0], 0x0000_0703);
    assert_eq!(port_regs[1].pcr[1], 0x0000_0703);
}

#[test]
fn pwm_counts_are_cut_to_16_bits() {
    let mut used = UsedPins::new();
    let pin = Pinmux::new(0, 7, &mut used);
    let mut pwm = Pwm::new();
    let mut port_regs = ports();
    // 16 MHz / 100 Hz = 160000 = 0x27100; 160000 * 50 / 100 = 80000 = 0x13880.
    assert_eq!(pwm.start_pwm(pin, 100, 50, &mut port_regs), Ok(()));
    assert_eq!(pwm.registers.mod_, 0x7100);
    assert_eq!(pwm.registers.cv[7], 0x3880);
    // 16 MHz / 3 Hz = 5333333; * 100 / 100 = 5333333 = 0x51_6155.
    assert_eq!(pwm.start_pwm(pin, 3, 100, &mut port_regs), Ok(()));
    assert_eq!(pwm.registers.mod_, 0x6155);
    assert_eq!(pwm.registers.cv[7], 0x6155);
    // A frequency above the clock gives a top of 0.
    assert_eq!(pwm.start_pwm(pin, 16_000_001, 100, &mut port_regs), Ok(()));
    assert_eq!(pwm.registers.mod_, 0);
    assert_eq!(pwm.registers.cv[7], 0);
}

#[test]
fn pwm_rejects_pins_that_are_no_channel() {
    let mut used = UsedPins::new();
    let pin = Pinmux::new(1, 8, &mut used);
    let mut pwm = Pwm::new();
    let mut port_regs = ports();
    let before = pwm.registers;
    assert_eq!(pwm.start_pwm(pin, 1000, 50, &mut port_regs), Err(ErrorCode::Invalid));
    assert_eq!(pwm.start_pwm(pin, 0, 50, &mut port_regs), Err(ErrorCode::Invalid));
    assert_eq!(pwm.stop_pwm(pin), Err(ErrorCode::Invalid));
    assert_eq!(pwm.registers, before);
    assert_eq!(port_regs, ports());
}

#[test]
fn pwm_with_frequency_0_stops_the_channel() {
    let mut used = UsedPins::new();
    let pin = Pinmux::new(1, 2, &mut used);
    let mut pwm = Pwm::new();
    let mut port_regs = ports();
    assert_eq!(pwm.start_pwm(pin, 2000, 50, &mut port_regs), Ok(()));
    assert_eq!(pwm.registers.csc[2], 0x28);
    assert_eq!(pwm.start_pwm(pin, 0, 50, &mut port_regs), Ok(()));
    assert_eq!(pwm.registers.csc[2], 0x08);
    assert_eq!(pwm.registers.mod_, 8000);
    pwm.registers.csc[2] = 0xFF;
    assert_eq!(pwm.stop_pwm(pin), Ok(()));
    assert_eq!(pwm.registers.csc[2], 0xDF);
}

#[test]
fn pwm_interrupt_clears_channel_0_flag_if_any_flag_is_set() {
    let mut pwm = Pwm::new();
    for (status, expected) in [
        (0x00u32, 0x00u32),
        (0x01, 0x00),
        (0x02, 0x02),
        (0x03, 0x02),
        (0x80, 0x80),
        (0xFF, 0xFE),
        (0x100, 0x100),
        (0x101, 0x100),
        (0xFFFF_FF00, 0xFFFF_FF00),
        (0xFFFF_FFFF, 0xFFFF_FFFE),
    ] {
        pwm.registers.status = status;
        pwm.handle_interrupt();
        assert_eq!(pwm.registers.status, expected, "status {:#x}", status);
    }
    assert_eq!(pwm.get_maximum_frequency_hz(), 5333333);
    assert_eq!(pwm.get_maximum_duty_cycle(), 100);
}

#[test]
fn rgb_led_takes_its_two_pins_as_outputs() {
    let ptd = GpioRegisters { pddr: 0x0000_0100, ..zeroed() };
    let portd = PortRegisters { pcr: [0x0000_0703; 32] };
    let led = RgbLed::init(ptd, portd);
    assert_eq!(led.ptd, GpioRegisters { pddr: 0x0000_8101, ..zeroed() });
    for pin in 0..32 {
        let expected = if pin == 0 || pin == 15 { 0x0000_0103 } else { 0x0000_0703 };
        assert_eq!(led.portd.pcr[pin], expected, "pin {}", pin);
    }
}

#[test]
fn rgb_led_is_lit_by_driving_its_pin_low() {
    let mut led = RgbLed::init(zeroed(), PortRegisters { pcr: [0; 32] });
    led.set_red(true);
    assert_eq!(led.ptd.pcor, 0x8000);
    assert_eq!(led.ptd.psor, 0);
    led.set_red(false);
    assert_eq!(led.ptd.psor, 0x8000);
    led.set_blue(true);
    assert_eq!(led.ptd.pcor, 0x0001);
    led.set_blue(false);
    assert_eq!(led.ptd.psor, 0x0001);
    assert_eq!(led.ptd.pddr, 0x8001);
}
