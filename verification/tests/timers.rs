use s32k144::deferred_call::DeferredCall;
use s32k144::lpit0::Lpit0Timer;
use s32k144::rtc::{Rtc, RtcInterrupt};

#[test]
fn rtc_starts_stops_and_resets() {
    let mut rtc = Rtc::new();
    assert!(!rtc.is_running());
    rtc.registers.tpr = 0x1234;
    rtc.registers.tsr = 77;
    assert_eq!(rtc.start(), Ok(()));
    assert!(rtc.is_running());
    assert_eq!(rtc.registers.tpr, 0);
    assert_eq!(rtc.registers.sr, 0x10);
    assert_eq!(rtc.now(), 77);
    assert_eq!(rtc.reset(), Ok(()));
    assert_eq!(rtc.now(), 0);
    assert!(rtc.is_running());
    rtc.registers.sr = 0x17;
    assert_eq!(rtc.stop(), Ok(()));
    assert!(!rtc.is_running());
    assert_eq!(rtc.registers.sr, 0x07);
}

#[test]
fn rtc_alarm_is_set_armed_and_disarmed() {
    let mut rtc = Rtc::new();
    assert!(!rtc.is_armed());
    rtc.set_alarm(1000, 24);
    assert_eq!(rtc.get_alarm(), 1024);
    assert_eq!(rtc.registers.tar, 1024);
    assert_eq!(rtc.registers.ier, 0x04);
    assert!(rtc.is_armed());
    rtc.set_alarm(0xFFFF_FFF0, 0x20);
    assert_eq!(rtc.get_alarm(), 0x10);
    rtc.enable_overflow_interrupt();
    assert_eq!(rtc.registers.ier, 0x06);
    assert_eq!(rtc.disarm(), Ok(()));
    assert_eq!(rtc.registers.ier, 0x02);
    assert!(!rtc.is_armed());
    assert_eq!(rtc.minimum_dt(), 1);
}

#[test]
fn rtc_interrupt_clears_and_reports_its_flags() {
    let mut rtc = Rtc::new();
    rtc.registers.sr = 0x10;
    assert_eq!(rtc.handle_interrupt(), RtcInterrupt { overflow: false, alarm: false });
    assert_eq!(rtc.registers.sr, 0x10);
    rtc.registers.sr = 0x11;
    assert_eq!(rtc.handle_interrupt(), RtcInterrupt { overflow: true, alarm: false });
    assert_eq!(rtc.registers.sr, 0x10);
    rtc.registers.sr = 0x16;
    assert_eq!(rtc.handle_interrupt(), RtcInterrupt { overflow: false, alarm: true });
    assert_eq!(rtc.registers.sr, 0x12);
    rtc.registers.sr = 0xFFFF_FFFF;
    assert_eq!(rtc.handle_interrupt(), RtcInterrupt { overflow: true, alarm: true });
    assert_eq!(rtc.registers.sr, 0xFFFF_FFFA);
}

#[test]
fn lptmr_alarm_keeps_the_low_16_bits() {
    let mut timer = s32k144::lptmr0::TimerAlarm::new();
    timer.registers.cnr = 42;
    assert_eq!(timer.now(), 42);
    timer.set_alarm(0x0001_0000, 0x0000_1234);
    assert_eq!(timer.registers.cmr, 0x1234);
    assert_eq!(timer.get_alarm(), 0x1234);
    assert_eq!(timer.registers.csr, 0x40);
    assert!(timer.is_armed());
    timer.set_alarm(0xFFFF_FFFF, 2);
    assert_eq!(timer.get_alarm(), 1);
    timer.registers.cmr = 0xABCD_1234;
    assert_eq!(timer.get_alarm(), 0x1234);
    assert_eq!(timer.disarm(), Ok(()));
    assert_eq!(timer.registers.csr, 0);
    assert!(!timer.is_armed());
    assert_eq!(timer.minimum_dt(), 1);
}

#[test]
fn lptmr_interrupt_clears_the_compare_flag() {
    let mut timer = s32k144::lptmr0::TimerAlarm::new();
    timer.registers.csr = 0xC1;
    timer.handle_interrupt();
    assert_eq!(timer.registers.csr, 0x41);
    timer.handle_interrupt();
    assert_eq!(timer.registers.csr, 0x41);
}

#[test]
fn lptmr_slot_is_registered_and_served() {
    let mut timer = s32k144::lptmr0::TimerAlarm::new();
    assert_eq!(timer.deferred_call, None);
    timer.register();
    assert_eq!(timer.deferred_call, None);
    assert!(!timer.service_deferred_call());
    timer.initialize();
    assert_eq!(timer.deferred_call, Some(DeferredCall { registered: false, pending: false }));
    timer.register();
    assert_eq!(timer.deferred_call, Some(DeferredCall { registered: true, pending: false }));
    assert!(!timer.service_deferred_call());
    timer.deferred_call = Some(DeferredCall { registered: true, pending: true });
    assert!(timer.service_deferred_call());
    assert!(!timer.service_deferred_call());
}

#[test]
fn lpit_alarm_uses_channel_0() {
    let mut timer = Lpit0Timer::new();
    timer.registers.cval = [5, 6, 7, 8];
    timer.registers.tctrl = [0x02, 0x02, 0, 0];
    assert_eq!(timer.now(), 5);
    assert!(!timer.is_armed());
    timer.set_alarm(100, 50);
    assert_eq!(timer.registers.tval, [150, 0, 0, 0]);
    assert_eq!(timer.registers.tctrl, [0x03, 0x02, 0, 0]);
    assert_eq!(timer.registers.mier, 0x01);
    assert_eq!(timer.get_alarm(), 150);
    assert!(timer.is_armed());
    timer.set_alarm(0xFFFF_FFFF, 11);
    assert_eq!(timer.get_alarm(), 10);
    assert_eq!(timer.disarm(), Ok(()));
    assert_eq!(timer.registers.tctrl, [0x02, 0x02, 0, 0]);
    assert!(!timer.is_armed());
    assert_eq!(timer.registers.mier, 0x01);
    assert_eq!(timer.minimum_dt(), 10);
}

#[test]
fn lpit_timer_interrupt_disables_the_channel_interrupt() {
    let mut timer = Lpit0Timer::new();
    timer.initialize();
    timer.registers.mier = 0x03;
    timer.handle_interrupt();
    assert_eq!(timer.registers.mier, 0x02);
    assert_eq!(timer.deferred_call, Some(DeferredCall { registered: false, pending: false }));
}

#[test]
fn lpit_alarm_interrupt_arms_the_deferred_call() {
    let mut timer = s32k144::lpit0::TimerAlarm::new();
    timer.registers.mier = 0x01;
    timer.handle_interrupt();
    assert_eq!(timer.registers.mier, 0);
    assert_eq!(timer.deferred_call, None);
    assert!(!timer.service_deferred_call());

    timer.initialize();
    timer.register();
    timer.registers.mier = 0x01;
    timer.handle_interrupt();
    assert_eq!(timer.registers.mier, 0);
    assert_eq!(timer.deferred_call, Some(DeferredCall { registered: true, pending: true }));
    assert!(timer.service_deferred_call());
    assert!(!timer.service_deferred_call());
}

#[test]
fn lpit_alarm_driver_sets_the_same_registers_as_the_timer() {
    let mut alarm = s32k144::lpit0::TimerAlarm::new();
    let mut timer = Lpit0Timer::new();
    alarm.set_alarm(7, 3);
    timer.set_alarm(7, 3);
    assert_eq!(alarm.registers, timer.registers);
    assert_eq!(alarm.get_alarm(), 10);
    assert!(alarm.is_armed());
    assert_eq!(alarm.now(), 0);
    assert_eq!(alarm.disarm(), Ok(()));
    assert!(!alarm.is_armed());
    assert_eq!(alarm.minimum_dt(), 10);
}
