//! Clock decoding, layouts, logging, tables and the other kernel services.
use asm_os::acpi::{
    acpi_disable, acpi_enable, parse, pm1a_ctrl_blk_ptr, read_fadt_u16, read_fadt_u32,
    read_fadt_u8, shutdown_command, slp_typ_a, slp_typ_b, CustomACPIError, Register, S5Values,
};
use asm_os::allocator::{align_up, BumpAllocator};
use asm_os::apic::{hi, lo, IrqFlags, IrqMode, RedirectionTableEntry, LEVEL_TRIGGERED, MASKED};
use asm_os::chrono::{Clock, Month, Weekday};
use asm_os::cmos::{bcd_to_binary, h12_to_h24, CmosReading, RTC};
use asm_os::emulator::QEMUExitCode;
use asm_os::gdt::Stack;
use asm_os::idt::{calc_interrupt_index, interrupt_mask_target, InterruptIndex, IRQ};
use asm_os::kbd::{get_layout, reset_layout, set_layout, KbdConfig, Layout};
use asm_os::logger::{LogLevel, Logger};
use asm_os::pit::{set_pit_frequency_divider, TimerState};
use asm_os::system;
use asm_os::units::Unit;

#[test]
fn bcd_decoding_is_exact() {
    assert_eq!(bcd_to_binary(0x59), 59);
    assert_eq!(bcd_to_binary(0x00), 0);
    assert_eq!(bcd_to_binary(0x23), 23);
    assert_eq!(h12_to_h24(0x05), 17);
    assert_eq!(h12_to_h24(12), 0);
}

#[test]
fn rtc_decodes_bcd_and_twelve_hour_reading() {
    // BCD mode with 12-hour hours (both flag bits clear)
    let reading = CmosReading {
        second: 0x30,
        minute: 0x45,
        hour: 0x07,
        day: 0x15,
        month: 0x08,
        year: 0x23,
        status_b: 0x00,
    };
    let rtc = RTC::new(reading);
    assert_eq!(rtc.second, 30);
    assert_eq!(rtc.minute, 45);
    assert_eq!(rtc.hour, 19);
    assert_eq!(rtc.day, 15);
    assert_eq!(rtc.month, 8);
    assert_eq!(rtc.year, 2023);
}

#[test]
fn rtc_keeps_binary_twentyfour_hour_reading() {
    // binary mode, 24-hour mode (both flag bits set)
    let reading = CmosReading {
        second: 30,
        minute: 45,
        hour: 19,
        day: 15,
        month: 8,
        year: 23,
        status_b: 0x06,
    };
    let mut rtc = RTC::new(CmosReading { second: 0, ..reading });
    assert_eq!(rtc.second, 0);
    rtc.sync(reading);
    assert_eq!(rtc.second, 30);
    assert_eq!(rtc.hour, 19);
    assert_eq!(rtc.year, 2023);
}

#[test]
fn clock_now_repacks_the_reading() {
    let rtc = RTC { year: 2023, month: 8, day: 15, hour: 19, minute: 45, second: 30 };
    let now = Clock::now(&rtc);
    assert_eq!(now.year, 2023);
    assert_eq!(now.month, 8);
    assert_eq!(now.day, 15);
    assert_eq!(now.hour, 19);
    assert_eq!(now.minute, 45);
    assert_eq!(now.second, 30);
}

#[test]
fn calendar_indices_are_exact() {
    assert_eq!(Weekday::Monday.as_u8(), 0);
    assert_eq!(Weekday::Sunday.as_u8(), 6);
    assert_eq!(Month::January.as_u8(), 0);
    assert_eq!(Month::December.as_u8(), 11);
}

#[test]
fn layout_tables_are_exact() {
    assert_eq!(Layout::from_index(0), Ok(Layout::AZERTY));
    assert_eq!(Layout::from_index(2), Ok(Layout::QWERTY));
    assert_eq!(Layout::from_index(3), Err(()));
    assert_eq!(Layout::Dvorak.as_u8(), 1);
    assert_eq!(Layout::Dvorak.as_str(), "dvorak");
}

#[test]
fn layout_configuration_round_trips() {
    let mut config = KbdConfig::new();
    assert_eq!(get_layout(&config), Layout::QWERTY);
    set_layout(&mut config, Layout::AZERTY);
    assert_eq!(get_layout(&config), Layout::AZERTY);
    reset_layout(&mut config);
    assert_eq!(get_layout(&config), Layout::QWERTY);
}

#[test]
fn logger_filters_by_rank() {
    let mut logger = Logger::new();
    assert_eq!(logger.get_log_level(), LogLevel::Apprise);
    assert!(logger.should_log(LogLevel::Failure));
    assert!(logger.should_log(LogLevel::Apprise));
    logger.set_log_level(LogLevel::Warning);
    assert!(logger.should_log(LogLevel::Failure));
    assert!(logger.should_log(LogLevel::Warning));
    assert!(!logger.should_log(LogLevel::Success));
    logger.set_log_level(LogLevel::Quiet);
    assert!(!logger.should_log(LogLevel::Failure));
}

#[test]
fn units_are_powers_of_1024() {
    assert_eq!(Unit::KiB.bytes(), 0x400);
    assert_eq!(Unit::MiB.bytes(), 0x100000);
    assert_eq!(Unit::GiB.bytes(), 0x40000000);
    assert_eq!(Unit::TiB.bytes(), 0x10000000000);
}

#[test]
fn exit_codes_and_stacks() {
    assert_eq!(QEMUExitCode::Success.as_u32(), 0x10);
    assert_eq!(QEMUExitCode::Failure.as_u32(), 0x11);
    assert_eq!(Stack::DoubleFault.as_u8(), 0);
}

#[test]
fn interrupt_vectors_are_remapped() {
    assert_eq!(IRQ::Timer.as_u8(), 32);
    assert_eq!(IRQ::Keyboard.as_u8(), 33);
    assert_eq!(IRQ::RTC.as_u8(), 40);
    assert_eq!(IRQ::index_to_pin(1), 33);
    assert_eq!(IRQ::pin_to_index(IRQ::RTC), 8);
    assert_eq!(InterruptIndex::Keyboard.as_u8(), 33);
    assert_eq!(calc_interrupt_index(0), 32);
    assert_eq!(interrupt_mask_target(1), (1, 0x21));
    assert_eq!(interrupt_mask_target(8), (0, 0xA1));
}

#[test]
fn redirection_entry_fields_are_independent() {
    let mut entry = RedirectionTableEntry::new();
    entry.set_vector(33);
    entry.set_mode(IrqMode::LowestPriority);
    entry.set_flags(IrqFlags::from_bits_truncate(LEVEL_TRIGGERED | MASKED));
    entry.set_dest(0xAB);
    assert_eq!(entry.vector(), 33);
    assert_eq!(entry.flags().bits(), LEVEL_TRIGGERED | MASKED);
    assert_eq!(entry.dest(), 0xAB);
    let (low, high) = entry.into_raw();
    assert_eq!(low, 0x18121);
    assert_eq!(high, 0xAB00_0000);

    let rebuilt = RedirectionTableEntry::from_raw(low, high);
    assert_eq!(rebuilt.vector(), 33);
    assert!(rebuilt.flags().contains(MASKED));
    assert_eq!(IrqMode::try_from(low), Ok(IrqMode::LowestPriority));
    assert_eq!(IrqMode::try_from(0x300), Err(0b011));
    assert_eq!(lo(1), 0x12);
    assert_eq!(hi(1), 0x13);
}

#[test]
fn fadt_fields_parse_little_endian() {
    let mut table = vec![0u8; 108];
    table[46] = 0x09;
    table[47] = 0x00;
    table[48] = 0xB2;
    table[52] = 0xA0;
    table[53] = 0xA1;
    table[64] = 0x04;
    table[65] = 0x06;
    let info = parse(&table).unwrap();
    assert_eq!(info.sci_interrupt, 9);
    assert_eq!(info.smi_command_port, 0xB2);
    assert_eq!(acpi_enable(&info), 0xA0);
    assert_eq!(acpi_disable(&info), 0xA1);
    assert_eq!(pm1a_ctrl_blk_ptr(&info), 0x0604);
    assert_eq!(read_fadt_u8(&table, Register::ACPIEnable), Some(0xA0));
    assert_eq!(read_fadt_u16(&table, Register::SCIInterrupt), Some(9));
    assert_eq!(read_fadt_u32(&table, Register::PM1AControlBlock), Some(0x0604));
}

#[test]
fn short_fadt_is_refused() {
    let table = vec![0u8; 60];
    assert_eq!(parse(&table), Err(CustomACPIError::FADTNotFound));
    assert_eq!(read_fadt_u32(&vec![0u8; 50], Register::PM1AControlBlock), None);
}

#[test]
fn shutdown_command_sets_sleep_enable() {
    let values = S5Values { slp_typ_a: 0x5, slp_typ_b: 0x7 };
    assert_eq!(slp_typ_a(&values), 5);
    assert_eq!(slp_typ_b(&values), 7);
    assert_eq!(shutdown_command(&values), 0x2005);
}

#[test]
fn align_up_rounds_to_the_next_boundary() {
    assert_eq!(align_up(0, 8), 0);
    assert_eq!(align_up(1, 8), 8);
    assert_eq!(align_up(8, 8), 8);
    assert_eq!(align_up(9, 16), 16);
    assert_eq!(align_up(17, 1), 17);
}

#[test]
fn bump_allocator_bumps_and_resets() {
    let mut bump = BumpAllocator::new();
    bump.init(0x1000, 0x100);
    let first = bump.allocate(0x10, 8).unwrap();
    assert_eq!(first, 0x1000);
    let second = bump.allocate(0x04, 16).unwrap();
    assert_eq!(second, 0x1010);
    // an allocation past the region is refused
    assert_eq!(bump.allocate(0x1000, 8), None);
    bump.deallocate();
    bump.deallocate();
    // the last deallocation reclaims the whole region
    let again = bump.allocate(0x10, 8).unwrap();
    assert_eq!(again, 0x1000);
}

#[test]
fn timer_state_counts_ticks() {
    let mut timer = TimerState::new();
    assert!(!system::is_timer_initialized(&timer));
    timer.mark_initialized();
    assert!(timer.is_initialized());
    timer.timer_irq_handler();
    timer.timer_irq_handler();
    timer.timer_irq_handler();
    assert_eq!(system::ticks(&timer), 3);
    timer.rtc_irq_handler();
    assert_eq!(system::last_rtc_update(&timer), 3);
    timer.timer_irq_handler();
    assert_eq!(timer.ticks(), 4);
    assert_eq!(timer.last_rtc_update(), 3);
}

#[test]
fn pit_divider_command_is_exact() {
    let (command, low, high) = set_pit_frequency_divider(1193, 0);
    assert_eq!(command, 0x36);
    assert_eq!(low, 0xA9);
    assert_eq!(high, 0x04);
    let (command2, _, _) = set_pit_frequency_divider(0, 2);
    assert_eq!(command2, 0xB6);
}

#[test]
fn layout_names_round_trip() {
    for idx in 0..3 {
        let layout = Layout::from_index(idx).unwrap();
        assert_eq!(Layout::from_str(layout.as_str()), Ok(layout));
    }
    assert_eq!(Layout::from_str("colemak"), Err(()));
    assert_eq!(Layout::from_str(""), Err(()));
}
