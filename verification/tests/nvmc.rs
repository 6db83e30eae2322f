use s32k144::error::ErrorCode;
use s32k144::ftfc_model::{BusWrite, FtfcDevice};
use s32k144::nvmc::{Completion, FlashState, Ftfc, FtfcPage, FtfcRegisters};
use s32k144::nvmc::{FLASH_SIZE, NUM_PAGES, PAGE_SIZE};

fn patterned(seed: u8) -> FtfcPage {
    let mut page = FtfcPage::default();
    for i in 0..PAGE_SIZE {
        page.0[i] = (i as u8).wrapping_mul(31).wrapping_add(seed);
    }
    page
}

fn ready_driver() -> Ftfc {
    let mut ftfc = Ftfc::new();
    ftfc.register();
    ftfc
}

fn page_in_array(ftfc: &Ftfc, page_number: usize) -> Vec<u8> {
    (0..PAGE_SIZE).map(|i| ftfc.device().peek(page_number * PAGE_SIZE + i)).collect()
}

fn read_back(ftfc: &mut Ftfc, page_number: usize) -> FtfcPage {
    assert_eq!(ftfc.read_page(page_number, FtfcPage::default()), Ok(()));
    match ftfc.service_deferred_call() {
        Some(Completion::Read(page, Ok(()))) => page,
        other => panic!("unexpected completion {:?}", other),
    }
}

fn write_through(ftfc: &mut Ftfc, page_number: usize, page: FtfcPage) -> FtfcPage {
    assert_eq!(ftfc.write_page(page_number, page), Ok(()));
    match ftfc.service_deferred_call() {
        Some(Completion::Write(page, Ok(()))) => page,
        other => panic!("unexpected completion {:?}", other),
    }
}

#[test]
fn page_default_is_all_zero() {
    let page = FtfcPage::default();
    assert_eq!(page.0.len(), 4096);
    assert!(page.0.iter().all(|byte| *byte == 0));
}

#[test]
fn page_index_reads_and_writes_one_byte() {
    let mut page = FtfcPage::default();
    *page.index_mut(0) = 0x11;
    *page.index_mut(4095) = 0x22;
    assert_eq!(*page.index(0), 0x11);
    assert_eq!(*page.index(1), 0);
    assert_eq!(*page.index(4095), 0x22);
}

#[test]
fn page_as_mut_is_the_whole_page() {
    let mut page = FtfcPage::default();
    {
        let bytes = page.as_mut();
        assert_eq!(bytes.len(), PAGE_SIZE);
        bytes[7] = 0x77;
    }
    assert_eq!(page.0[7], 0x77);
}

#[test]
fn new_driver_is_ready_over_erased_flash() {
    let ftfc = Ftfc::new();
    assert_eq!(ftfc.state(), FlashState::Ready);
    assert!(!ftfc.has_pending_deferred_call());
    assert_eq!(ftfc.device().peek(0), 0xFF);
    assert_eq!(ftfc.device().peek(FLASH_SIZE - 1), 0xFF);
    let regs = ftfc.device().registers();
    assert!(regs.is_ready());
    assert_eq!(regs.error(), None);
    assert_eq!(NUM_PAGES * PAGE_SIZE, FLASH_SIZE);
}

#[test]
fn erase_page_completes_once() {
    let mut ftfc = ready_driver();
    assert_eq!(ftfc.erase_page(3), Ok(()));
    assert_eq!(ftfc.state(), FlashState::Erase);
    assert!(ftfc.has_pending_deferred_call());
    let completion = ftfc.service_deferred_call();
    assert_eq!(ftfc.state(), FlashState::Ready);
    assert_eq!(completion, Some(Completion::Erase(Ok(()))));
    assert!(!ftfc.has_pending_deferred_call());
    assert_eq!(ftfc.service_deferred_call(), None);
    assert_eq!(ftfc.handle_interrupt(), None);
}

#[test]
fn second_write_is_busy_and_returns_its_buffer() {
    let mut ftfc = ready_driver();
    assert_eq!(ftfc.write_page(0, patterned(1)), Ok(()));
    assert_eq!(ftfc.write_page(0, patterned(2)), Err((ErrorCode::Busy, patterned(2))));
    assert_eq!(ftfc.state(), FlashState::Write);
    assert_eq!(page_in_array(&ftfc, 0), patterned(1).0.to_vec());
    assert_eq!(
        ftfc.service_deferred_call(),
        Some(Completion::Write(patterned(1), Ok(())))
    );
}

#[test]
fn read_page_returns_the_page_as_the_array_has_it() {
    let mut memory = vec![0xFFu8; FLASH_SIZE];
    for (i, byte) in memory.iter_mut().enumerate() {
        *byte = (i / PAGE_SIZE) as u8 ^ (i as u8);
    }
    let device = FtfcDevice::with_image(memory.clone(), vec![0xFF; PAGE_SIZE], 2).unwrap();
    let mut ftfc = Ftfc::with_device(device);
    ftfc.register();
    for page_number in [0usize, 1, 64, 127] {
        let page = read_back(&mut ftfc, page_number);
        assert_eq!(
            page.0.to_vec(),
            memory[page_number * PAGE_SIZE..(page_number + 1) * PAGE_SIZE].to_vec()
        );
        assert_eq!(ftfc.state(), FlashState::Ready);
    }
    assert_eq!(page_in_array(&ftfc, 64), memory[64 * PAGE_SIZE..65 * PAGE_SIZE].to_vec());
}

#[test]
fn read_page_overwrites_what_the_buffer_held() {
    let mut ftfc = ready_driver();
    assert_eq!(ftfc.read_range(9, patterned(5)), Ok(()));
    assert_eq!(ftfc.state(), FlashState::Read);
    assert_eq!(
        ftfc.handle_interrupt(),
        Some(Completion::Read(FtfcPage([0xFF; PAGE_SIZE]), Ok(())))
    );
}

#[test]
fn writing_the_same_buffer_twice_leaves_the_page_equal_to_it() {
    let mut ftfc = ready_driver();
    let back = write_through(&mut ftfc, 7, patterned(9));
    assert_eq!(back, patterned(9));
    assert_eq!(page_in_array(&ftfc, 7), patterned(9).0.to_vec());
    let back = write_through(&mut ftfc, 7, patterned(9));
    assert_eq!(back, patterned(9));
    assert_eq!(page_in_array(&ftfc, 7), patterned(9).0.to_vec());
    assert_eq!(read_back(&mut ftfc, 7), patterned(9));
}

#[test]
fn write_replaces_earlier_content() {
    let mut ftfc = ready_driver();
    write_through(&mut ftfc, 2, FtfcPage([0x00; PAGE_SIZE]));
    write_through(&mut ftfc, 2, patterned(3));
    assert_eq!(read_back(&mut ftfc, 2), patterned(3));
}

#[test]
fn write_touches_no_other_page() {
    let mut ftfc = ready_driver();
    write_through(&mut ftfc, 10, patterned(1));
    write_through(&mut ftfc, 11, patterned(2));
    assert_eq!(read_back(&mut ftfc, 10), patterned(1));
    assert_eq!(read_back(&mut ftfc, 11), patterned(2));
    assert_eq!(read_back(&mut ftfc, 9), FtfcPage([0xFF; PAGE_SIZE]));
    assert_eq!(read_back(&mut ftfc, 12), FtfcPage([0xFF; PAGE_SIZE]));
}

#[test]
fn requests_while_one_is_in_flight_are_busy() {
    let mut ftfc = ready_driver();
    assert_eq!(ftfc.read_page(1, FtfcPage::default()), Ok(()));
    assert_eq!(ftfc.read_page(2, patterned(4)), Err((ErrorCode::Busy, patterned(4))));
    assert_eq!(ftfc.write_page(2, patterned(5)), Err((ErrorCode::Busy, patterned(5))));
    assert_eq!(ftfc.erase_page(2), Err(ErrorCode::Busy));
    assert_eq!(ftfc.state(), FlashState::Read);
    assert!(ftfc.service_deferred_call().is_some());

    assert_eq!(ftfc.erase_page(2), Ok(()));
    assert_eq!(ftfc.read_page(2, patterned(6)), Err((ErrorCode::Busy, patterned(6))));
    assert_eq!(ftfc.write_page(3, patterned(7)), Err((ErrorCode::Busy, patterned(7))));
    assert_eq!(ftfc.erase_page(3), Err(ErrorCode::Busy));
    assert_eq!(ftfc.state(), FlashState::Erase);
    assert_eq!(page_in_array(&ftfc, 3), vec![0xFF; PAGE_SIZE]);
    assert_eq!(ftfc.service_deferred_call(), Some(Completion::Erase(Ok(()))));
    assert_eq!(ftfc.erase_page(3), Ok(()));
}

#[test]
fn page_numbers_outside_the_array_are_an_invalid_size() {
    let mut ftfc = ready_driver();
    assert_eq!(ftfc.erase_page(NUM_PAGES), Err(ErrorCode::InvalidSize));
    assert_eq!(
        ftfc.read_page(NUM_PAGES, patterned(1)),
        Err((ErrorCode::InvalidSize, patterned(1)))
    );
    assert_eq!(
        ftfc.read_range(usize::MAX, patterned(2)),
        Err((ErrorCode::InvalidSize, patterned(2)))
    );
    assert_eq!(
        ftfc.write_page(1 << 20, patterned(3)),
        Err((ErrorCode::InvalidSize, patterned(3)))
    );
    assert_eq!(ftfc.state(), FlashState::Ready);
    assert!(!ftfc.has_pending_deferred_call());
    assert_eq!(ftfc.device().registers().fccob0, 0);
    assert_eq!(ftfc.erase_page(NUM_PAGES - 1), Ok(()));
    // In flight, every request is busy, whatever its page.
    assert_eq!(ftfc.erase_page(NUM_PAGES), Err(ErrorCode::Busy));
    assert_eq!(
        ftfc.write_page(usize::MAX, patterned(4)),
        Err((ErrorCode::Busy, patterned(4)))
    );
}

#[test]
fn erase_then_read_yields_erased_bytes() {
    let mut ftfc = ready_driver();
    write_through(&mut ftfc, 5, patterned(8));
    assert_eq!(ftfc.erase_page(5), Ok(()));
    assert_eq!(ftfc.service_deferred_call(), Some(Completion::Erase(Ok(()))));
    let page = read_back(&mut ftfc, 5);
    assert!(page.0.iter().all(|byte| *byte == 0xFF));
}

#[test]
fn write_then_read_round_trips() {
    let mut ftfc = ready_driver();
    for (page_number, seed) in [(0usize, 1u8), (1, 2), (63, 3), (127, 4)] {
        write_through(&mut ftfc, page_number, patterned(seed));
        assert_eq!(read_back(&mut ftfc, page_number), patterned(seed));
    }
    assert_eq!(read_back(&mut ftfc, 0), patterned(1));
}

#[test]
fn erase_loads_the_command_registers() {
    let mut ftfc = ready_driver();
    assert_eq!(ftfc.erase_page(3), Ok(()));
    let regs = ftfc.device().registers();
    assert_eq!(regs.fccob0, 0x09);
    assert_eq!((regs.fccob1, regs.fccob2, regs.fccob3), (0x00, 0x30, 0x00));
    assert_eq!(regs.address(), 0x3000);
    assert_eq!(regs.fstat, 0x80);
    ftfc.service_deferred_call();
    assert_eq!(ftfc.erase_page(127), Ok(()));
    let regs = ftfc.device().registers();
    assert_eq!((regs.fccob1, regs.fccob2, regs.fccob3), (0x07, 0xF0, 0x00));
    assert_eq!(regs.address(), 0x7F000);
}

#[test]
fn write_command_puts_the_address_most_significant_byte_first() {
    let mut ftfc = Ftfc::new();
    ftfc.write_command(0xA5, 0x12345678);
    let regs = ftfc.device().registers();
    assert_eq!(regs.fccob0, 0xA5);
    assert_eq!((regs.fccob1, regs.fccob2, regs.fccob3), (0x34, 0x56, 0x78));
    assert_eq!(regs.address(), 0x345678);
}

fn protected_driver() -> Ftfc {
    let mut device = FtfcDevice::new(3);
    // Bit 0 of FPROT3 guards pages 0 to 3, bit 1 of FPROT2 pages 36 to 39.
    device.write_fprot(3, 0xFE);
    device.write_fprot(2, 0xFD);
    let mut ftfc = Ftfc::with_device(device);
    ftfc.register();
    ftfc
}

#[test]
fn protection_covers_four_pages_for_each_bit() {
    let ftfc = protected_driver();
    for page in 0..NUM_PAGES {
        let expected = page < 4 || (36..40).contains(&page);
        assert_eq!(ftfc.device().is_protected(page), expected, "page {}", page);
    }
}

#[test]
fn protection_can_be_added_but_not_removed() {
    let mut device = FtfcDevice::new(0);
    device.write_fprot(0, 0x7F);
    assert!(device.is_protected(127));
    device.write_fprot(0, 0xFF);
    assert!(device.is_protected(127));
    assert_eq!(device.registers().fprot0, 0x7F);
    device.write_fprot(4, 0x00);
    assert_eq!(device.registers().fprot1, 0xFF);
}

#[test]
fn erase_of_a_protected_page_is_a_protection_violation() {
    let mut ftfc = protected_driver();
    assert_eq!(ftfc.erase_page(3), Err(ErrorCode::ProtectionViolation));
    assert_eq!(ftfc.state(), FlashState::Ready);
    assert!(!ftfc.has_pending_deferred_call());
    assert_eq!(ftfc.device().registers().fstat, 0x90);
    assert_eq!(ftfc.service_deferred_call(), None);
    // The next command clears the flag.
    assert_eq!(ftfc.erase_page(4), Ok(()));
    assert_eq!(ftfc.device().registers().fstat, 0x80);
}

#[test]
fn write_to_a_protected_page_returns_the_buffer_untouched() {
    let mut memory = vec![0xFFu8; FLASH_SIZE];
    memory[36 * PAGE_SIZE] = 0x12;
    let mut device = FtfcDevice::with_image(memory, vec![0xFF; PAGE_SIZE], 1).unwrap();
    device.write_fprot(2, 0xFD);
    let mut ftfc = Ftfc::with_device(device);
    ftfc.register();
    assert_eq!(
        ftfc.write_page(36, patterned(1)),
        Err((ErrorCode::ProtectionViolation, patterned(1)))
    );
    assert_eq!(ftfc.state(), FlashState::Ready);
    assert_eq!(ftfc.device().peek(36 * PAGE_SIZE), 0x12);
    assert_eq!(ftfc.device().peek(36 * PAGE_SIZE + 1), 0xFF);
    assert_eq!(ftfc.write_page(40, patterned(1)), Ok(()));
}

#[test]
fn unknown_opcode_is_an_access_violation() {
    let mut ftfc = Ftfc::new();
    assert_eq!(ftfc.run_command(0x55, 0), Err(ErrorCode::AccessViolation));
    assert_eq!(ftfc.device().registers().fstat, 0xA0);
    assert_eq!(ftfc.run_command(0x09, 0), Ok(()));
}

#[test]
fn misplaced_erase_address_is_an_access_violation() {
    let mut ftfc = ready_driver();
    write_through(&mut ftfc, 1, patterned(1));
    assert_eq!(ftfc.run_command(0x09, 0x1001), Err(ErrorCode::AccessViolation));
    assert_eq!(ftfc.run_command(0x09, 0x80000), Err(ErrorCode::AccessViolation));
    assert_eq!(page_in_array(&ftfc, 1), patterned(1).0.to_vec());
    assert_eq!(ftfc.run_command(0x09, 0x7F000), Ok(()));
    assert_eq!(ftfc.run_command(0x49, 0x2000), Err(ErrorCode::AccessViolation));
}

#[test]
fn launch_with_a_flag_still_set_is_an_access_violation() {
    let mut device = FtfcDevice::new(2);
    device.write_fprot(3, 0xFE);
    device.write_fccob(0, 0x09);
    device.write_fstat(0x80);
    assert_eq!(device.registers().error(), Some(ErrorCode::ProtectionViolation));
    // An unprotected page now, but the flag was not cleared.
    device.write_fccob(2, 0x40);
    device.write_fstat(0x80);
    assert_eq!(device.registers().fstat, 0xB0);
    assert_eq!(device.registers().error(), Some(ErrorCode::AccessViolation));
    // Writing 1 to the flags clears them and nothing else.
    device.write_fstat(0x70);
    assert_eq!(device.registers().fstat, 0x80);
    assert_eq!(device.registers().error(), None);
}

#[test]
fn read_during_a_command_is_a_read_collision() {
    let mut device = FtfcDevice::new(3);
    device.write_fccob(0, 0x09);
    device.write_fstat(0x80);
    assert!(!device.registers().is_ready());
    assert_eq!(device.read_byte(0x1000), 0xFF);
    assert_eq!(device.registers().error(), Some(ErrorCode::ReadCollision));
    assert_eq!(device.registers().fstat, 0x40);
    let ftfc = Ftfc::with_device(device);
    assert_eq!(ftfc.device().registers().fstat, 0xC0);
    assert_eq!(ftfc.device().registers().error(), Some(ErrorCode::ReadCollision));
}

#[test]
fn status_errors_are_decoded_by_priority() {
    let mut regs = FtfcDevice::new(0).registers();
    let cases: [(u8, Option<ErrorCode>); 8] = [
        (0x80, None),
        (0x01, None),
        (0x10, Some(ErrorCode::ProtectionViolation)),
        (0x20, Some(ErrorCode::AccessViolation)),
        (0x40, Some(ErrorCode::ReadCollision)),
        (0x30, Some(ErrorCode::AccessViolation)),
        (0x50, Some(ErrorCode::ProtectionViolation)),
        (0xF0, Some(ErrorCode::AccessViolation)),
    ];
    for (fstat, expected) in cases {
        regs.fstat = fstat;
        assert_eq!(regs.error(), expected, "fstat {:#x}", fstat);
        assert_eq!(regs.is_ready(), fstat & 0x80 != 0);
    }
}

#[test]
fn a_command_takes_its_latency_in_status_polls() {
    let mut device = FtfcDevice::new(3);
    device.write_fccob(0, 0x09);
    device.write_fstat(0x80);
    assert_eq!(device.read_fstat(), 0x00);
    assert_eq!(device.read_fstat(), 0x00);
    assert_eq!(device.read_fstat(), 0x80);
    assert_eq!(device.read_fstat(), 0x80);
}

#[test]
fn a_command_without_latency_leaves_the_device_ready() {
    let mut device = FtfcDevice::new(0);
    device.program_byte(5, 0x00);
    device.write_fccob(0, 0x09);
    device.write_fstat(0x80);
    assert!(device.registers().is_ready());
    assert_eq!(device.peek(5), 0xFF);
}

#[test]
fn command_registers_are_locked_while_a_command_runs() {
    let mut device = FtfcDevice::new(2);
    device.write_fccob(0, 0x09);
    device.write_fccob(11, 0xBB);
    device.write_fccob(12, 0xCC);
    device.write_fstat(0x80);
    device.write_fccob(0, 0x49);
    device.write_fstat(0x80);
    assert_eq!(device.registers().fccob0, 0x09);
    assert_eq!(device.registers().fccobb, 0xBB);
    assert_eq!(device.read_fstat(), 0x00);
    assert_eq!(device.read_fstat(), 0x80);
}

#[test]
fn programming_only_clears_bits() {
    let mut device = FtfcDevice::new(0);
    device.program_byte(100, 0xF0);
    assert_eq!(device.peek(100), 0xF0);
    device.program_byte(100, 0x3C);
    assert_eq!(device.peek(100), 0x30);
    device.program_byte(100, 0xFF);
    assert_eq!(device.peek(100), 0x30);
}

#[test]
fn programming_a_protected_page_is_refused() {
    let mut device = FtfcDevice::new(0);
    device.write_fprot(3, 0xFE);
    device.program_byte(0x3FFF, 0x00);
    assert_eq!(device.peek(0x3FFF), 0xFF);
    assert_eq!(device.registers().error(), Some(ErrorCode::ProtectionViolation));
    device.program_byte(0x4000, 0x00);
    assert_eq!(device.peek(0x4000), 0x00);
}

#[test]
fn programming_during_a_command_is_a_collision() {
    let mut device = FtfcDevice::new(2);
    device.write_fccob(0, 0x09);
    device.write_fstat(0x80);
    device.program_byte(0x2000, 0x00);
    assert_eq!(device.peek(0x2000), 0xFF);
    assert_eq!(device.registers().error(), Some(ErrorCode::ReadCollision));
}

#[test]
fn image_of_the_wrong_size_is_refused() {
    assert!(FtfcDevice::with_image(vec![0; FLASH_SIZE - 1], vec![0; PAGE_SIZE], 0).is_none());
    assert!(FtfcDevice::with_image(vec![0; FLASH_SIZE], vec![0; PAGE_SIZE + 1], 0).is_none());
    assert!(FtfcDevice::with_image(vec![0; FLASH_SIZE], vec![0; PAGE_SIZE], 0).is_some());
}

#[test]
fn erase_uicr_erases_the_configuration_sector_only() {
    let mut memory = vec![0xFFu8; FLASH_SIZE];
    memory[0x1000] = 0x00;
    let device = FtfcDevice::with_image(memory, vec![0x5A; PAGE_SIZE], 2).unwrap();
    let mut ftfc = Ftfc::with_device(device);
    assert_eq!(ftfc.device().peek_config(0), 0x5A);
    ftfc.erase_uicr();
    for offset in [0usize, 1, PAGE_SIZE - 1] {
        assert_eq!(ftfc.device().peek_config(offset), 0xFF);
    }
    assert_eq!(ftfc.device().peek(0x1000), 0x00);
    let regs = ftfc.device().registers();
    assert_eq!(regs.fccob0, 0x49);
    assert_eq!((regs.fccob1, regs.fccob2, regs.fccob3), (0x00, 0x10, 0x00));
    assert_eq!(ftfc.state(), FlashState::Ready);
    assert!(!ftfc.has_pending_deferred_call());
}

#[test]
fn clear_fstat_errors_clears_the_three_flags() {
    let mut device = FtfcDevice::new(0);
    device.write_fccob(0, 0x55);
    device.write_fstat(0x80);
    assert_eq!(device.registers().fstat, 0xA0);
    let mut ftfc = Ftfc::with_device(device);
    ftfc.clear_fstat_errors();
    assert_eq!(ftfc.device().registers().fstat, 0x80);
    assert!(ftfc.is_ready());
}

#[test]
fn configure_sets_one_bit_of_the_configuration_register() {
    let mut ftfc = Ftfc::new();
    ftfc.configure_writeable();
    assert_eq!(ftfc.device().registers().fcnfg, 0x80);
    ftfc.configure_eraseable();
    assert_eq!(ftfc.device().registers().fcnfg, 0xA0);
    assert_eq!(ftfc.device().read_fcnfg(), 0xA0);
}

#[test]
fn wait_for_command_complete_ends_a_running_command() {
    let mut device = FtfcDevice::new(5);
    device.write_fccob(0, 0x09);
    device.write_fstat(0x80);
    let mut ftfc = Ftfc::with_device(FtfcDevice::new(1));
    ftfc.wait_for_command_complete();
    assert!(ftfc.is_ready());
    let ftfc = Ftfc::with_device(device);
    assert!(ftfc.device().registers().is_ready());
}

#[test]
fn completion_without_a_registered_handler_does_not_run() {
    let mut ftfc = Ftfc::new();
    assert_eq!(ftfc.erase_page(1), Ok(()));
    assert!(ftfc.has_pending_deferred_call());
    assert!(!ftfc.is_deferred_call_due());
    assert_eq!(ftfc.service_deferred_call(), None);
    assert!(!ftfc.has_pending_deferred_call());
    assert_eq!(ftfc.state(), FlashState::Erase);
    assert_eq!(ftfc.handle_deferred_call(), Some(Completion::Erase(Ok(()))));
    assert_eq!(ftfc.state(), FlashState::Ready);
}

#[test]
fn register_file_reads_back_what_it_holds() {
    let regs = FtfcRegisters {
        fstat: 0x80,
        fcnfg: 0,
        fsec: 0,
        fopt: 0,
        fccob3: 0x56,
        fccob2: 0x34,
        fccob1: 0x12,
        fccob0: 0x09,
        fccob7: 0,
        fccob6: 0,
        fccob5: 0,
        fccob4: 0,
        fccobb: 0,
        fccoba: 0,
        fccob9: 0,
        fccob8: 0,
        fprot3: 0xFF,
        fprot2: 0xFF,
        fprot1: 0xFF,
        fprot0: 0xFF,
        feprot: 0,
        fdprot: 0,
    };
    assert_eq!(regs.address(), 0x123456);
    assert!(regs.is_ready());
    assert_eq!(regs.error(), None);
}

fn erase_writes(high: u8, mid: u8) -> Vec<BusWrite> {
    vec![
        BusWrite::Status(0x70),
        BusWrite::CommandByte(0, 0x09),
        BusWrite::CommandByte(1, high),
        BusWrite::CommandByte(2, mid),
        BusWrite::CommandByte(3, 0x00),
        BusWrite::Status(0x80),
    ]
}

#[test]
fn erase_makes_the_six_writes_of_its_command() {
    let mut ftfc = ready_driver();
    assert_eq!(ftfc.take_bus_writes(), vec![]);
    assert_eq!(ftfc.erase_page(3), Ok(()));
    assert_eq!(ftfc.take_bus_writes(), erase_writes(0x00, 0x30));
    assert_eq!(ftfc.take_bus_writes(), vec![]);
    assert_eq!(ftfc.state(), FlashState::Erase);
    ftfc.service_deferred_call();
    assert_eq!(ftfc.erase_page(127), Ok(()));
    assert_eq!(ftfc.take_bus_writes(), erase_writes(0x07, 0xF0));
}

#[test]
fn refused_requests_and_reads_make_no_write() {
    let mut ftfc = ready_driver();
    assert_eq!(ftfc.erase_page(NUM_PAGES), Err(ErrorCode::InvalidSize));
    assert_eq!(ftfc.read_page(5, FtfcPage::default()), Ok(()));
    assert_eq!(ftfc.erase_page(1), Err(ErrorCode::Busy));
    assert!(ftfc.write_page(1, patterned(1)).is_err());
    ftfc.service_deferred_call();
    assert!(ftfc.is_ready());
    assert_eq!(ftfc.take_bus_writes(), vec![]);
}

#[test]
fn write_erases_and_then_programs_every_byte_in_order() {
    let mut ftfc = ready_driver();
    assert_eq!(ftfc.write_page(2, patterned(7)), Ok(()));
    let writes = ftfc.take_bus_writes();
    assert_eq!(writes.len(), 6 + PAGE_SIZE);
    assert_eq!(writes[..6].to_vec(), erase_writes(0x00, 0x20));
    for (i, write) in writes[6..].iter().enumerate() {
        assert_eq!(*write, BusWrite::Program(2 * PAGE_SIZE + i, patterned(7).0[i]));
    }
}

#[test]
fn write_to_a_protected_page_stops_after_the_erase_command() {
    let mut ftfc = protected_driver();
    assert_eq!(
        ftfc.take_bus_writes(),
        vec![BusWrite::Protection(3, 0xFE), BusWrite::Protection(2, 0xFD)]
    );
    assert!(ftfc.write_page(1, patterned(1)).is_err());
    assert_eq!(ftfc.take_bus_writes(), erase_writes(0x00, 0x10));
}

#[test]
fn every_register_write_is_logged_once() {
    let mut ftfc = Ftfc::new();
    ftfc.clear_fstat_errors();
    ftfc.configure_writeable();
    ftfc.write_command(0x12, 0x00AB_CDEF);
    ftfc.erase_uicr();
    assert_eq!(
        ftfc.take_bus_writes(),
        vec![
            BusWrite::Status(0x70),
            BusWrite::Config(0x80),
            BusWrite::CommandByte(0, 0x12),
            BusWrite::CommandByte(1, 0xAB),
            BusWrite::CommandByte(2, 0xCD),
            BusWrite::CommandByte(3, 0xEF),
            BusWrite::Status(0x70),
            BusWrite::CommandByte(0, 0x49),
            BusWrite::CommandByte(1, 0x00),
            BusWrite::CommandByte(2, 0x10),
            BusWrite::CommandByte(3, 0x00),
            BusWrite::Status(0x80),
        ]
    );
}

#[test]
fn device_logs_writes_that_it_ignores() {
    let mut device = FtfcDevice::new(2);
    device.write_fccob(0, 0x09);
    device.write_fstat(0x80);
    device.write_fccob(1, 0x55);
    device.program_byte(9, 0x00);
    device.write_fccob(12, 0x01);
    assert_eq!(device.registers().fccob1, 0);
    assert_eq!(
        device.take_writes(),
        vec![
            BusWrite::CommandByte(0, 0x09),
            BusWrite::Status(0x80),
            BusWrite::CommandByte(1, 0x55),
            BusWrite::Program(9, 0x00),
            BusWrite::CommandByte(12, 0x01),
        ]
    );
    assert_eq!(device.take_writes(), vec![]);
}
