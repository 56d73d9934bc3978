use fsmc_display_interface::address::USABLE_ADDRESS_BITS;
use fsmc_display_interface::registers::timing_word;
use fsmc_display_interface::{
    bank_control_word, make_data_address, AccessMode, BankRegisters, BusWrite, DispatchError,
    FsmcLcd, Payload, Timing, BASE_ADDRESS, COMMAND_ADDRESS, DATA_ADDRESS,
};

fn lcd_with(read: &Timing, write: &Timing) -> FsmcLcd<u32> {
    let data: [u32; 16] = [10, 11, 12, 13, 14, 15, 16, 17, 18, 19, 20, 21, 22, 23, 24, 25];
    FsmcLcd::new(1, 2, 3, 4, data, read, write)
}

fn lcd() -> FsmcLcd<u32> {
    lcd_with(&Timing::default(), &Timing::default())
}

fn store(address: usize, value: u16) -> BusWrite {
    BusWrite { address, value }
}

#[test]
fn default_timing_is_slowest_legal() {
    let t = Timing::default();
    assert_eq!(t.access_mode, AccessMode::C);
    assert_eq!(t.bus_turnaround, 15);
    assert_eq!(t.data, 255);
    assert_eq!(t.address_hold, 15);
    assert_eq!(t.address_setup, 15);
    assert!(t.is_valid());
}

#[test]
fn new_timing_keeps_fields() {
    let t = Timing::new(AccessMode::A, 1, 4, 2, 0);
    assert_eq!(t.access_mode, AccessMode::A);
    assert_eq!(t.bus_turnaround, 1);
    assert_eq!(t.data, 4);
    assert_eq!(t.address_hold, 2);
    assert_eq!(t.address_setup, 0);
    assert!(t.is_valid());
}

#[test]
fn timing_validation_rejects_out_of_range_fields() {
    assert!(!Timing::new(AccessMode::A, 16, 4, 2, 0).is_valid());
    assert!(!Timing::new(AccessMode::A, 1, 0, 2, 0).is_valid());
    assert!(!Timing::new(AccessMode::A, 1, 4, 0, 0).is_valid());
    assert!(!Timing::new(AccessMode::A, 1, 4, 16, 0).is_valid());
    assert!(!Timing::new(AccessMode::A, 1, 4, 2, 16).is_valid());
    assert!(Timing::new(AccessMode::D, 15, 255, 15, 15).is_valid());
    assert!(Timing::new(AccessMode::B, 0, 1, 1, 0).is_valid());
}

#[test]
fn data_address_sets_usable_bits() {
    assert_eq!(COMMAND_ADDRESS, 0x6000_0000);
    assert_eq!(DATA_ADDRESS, 0x63FF_FFFE);
    assert_eq!(make_data_address(BASE_ADDRESS), DATA_ADDRESS);
    assert_eq!(DATA_ADDRESS ^ COMMAND_ADDRESS, USABLE_ADDRESS_BITS);
    assert_eq!(DATA_ADDRESS & 0x0c00_0000, COMMAND_ADDRESS & 0x0c00_0000);
    assert_eq!(make_data_address(0x6400_0000), 0x67FF_FFFE);
}

#[test]
fn bank_control_word_policy() {
    assert_eq!(bank_control_word(), 0x0000_5059);
}

#[test]
fn default_timing_register_word() {
    assert_eq!(timing_word(&Timing::default()), 0x200F_FFFF);
    assert_eq!(timing_word(&Timing::new(AccessMode::A, 1, 4, 2, 3)), 0x0001_0423);
}

#[test]
fn timing_register_masks_overlong_fields() {
    assert_eq!(timing_word(&Timing::new(AccessMode::B, 0x1F, 0, 0x12, 0x34)), 0x100F_0024);
}

#[test]
fn construction_programs_registers() {
    let read = Timing::new(AccessMode::A, 1, 4, 2, 3);
    let write = Timing::new(AccessMode::D, 15, 200, 7, 0);
    let lcd = lcd_with(&read, &write);
    let regs = lcd.registers();
    assert_eq!(
        regs,
        BankRegisters { bcr: 0x5059, btr: 0x0001_0423, bwtr: 0x300F_C870 }
    );
    assert_eq!(Timing::from_register(regs.btr), read);
    assert_eq!(Timing::from_register(regs.bwtr), write);
}

#[test]
fn timing_registers_read_back_for_many_valid_timings() {
    let modes = [AccessMode::A, AccessMode::B, AccessMode::C, AccessMode::D];
    for mode in modes {
        for turnaround in [0u8, 1, 7, 15] {
            for data in [1u8, 2, 128, 255] {
                for hold in [1u8, 8, 15] {
                    for setup in [0u8, 5, 15] {
                        let t = Timing::new(mode, turnaround, data, hold, setup);
                        let other = Timing::default();
                        let lcd = lcd_with(&t, &other);
                        let regs = lcd.registers();
                        assert_eq!(Timing::from_register(regs.btr), t);
                        assert_eq!(Timing::from_register(regs.bwtr), other);
                    }
                }
            }
        }
    }
}

#[test]
fn write_command_stores_at_command_address() {
    assert_eq!(lcd().write_command(0x2A), store(0x6000_0000, 0x002A));
}

#[test]
fn write_data_stores_at_data_address() {
    assert_eq!(lcd().write_data(0xBEEF), store(0x63FF_FFFE, 0xBEEF));
}

#[test]
fn command_then_data_bytes() {
    let lcd = lcd();
    let mut stores = lcd.send_commands(&Payload::U8(vec![0x36])).unwrap();
    stores.extend(lcd.send_data(&Payload::U8(vec![0x08])).unwrap());
    assert_eq!(stores, vec![store(COMMAND_ADDRESS, 0x0036), store(DATA_ADDRESS, 0x0008)]);
}

#[test]
fn command_bytes_are_zero_extended_in_order() {
    let lcd = lcd();
    let bytes = vec![0x00, 0x7F, 0x80, 0xFF, 0x2A];
    let expected: Vec<BusWrite> =
        vec![0x0000, 0x007F, 0x0080, 0x00FF, 0x002A].into_iter().map(|v| store(COMMAND_ADDRESS, v)).collect();
    assert_eq!(lcd.send_commands(&Payload::U8(bytes.clone())).unwrap(), expected);
    assert_eq!(lcd.send_commands(&Payload::U8Iter(bytes)).unwrap(), expected);
}

#[test]
fn data_words_pass_through_whatever_the_byte_order_tag() {
    let lcd = lcd();
    let words = vec![0x1234u16, 0xFF00, 0x0001, 0xF800];
    let expected: Vec<BusWrite> = words.iter().map(|&v| store(DATA_ADDRESS, v)).collect();
    for payload in [
        Payload::U16(words.clone()),
        Payload::U16BE(words.clone()),
        Payload::U16LE(words.clone()),
        Payload::U16BEIter(words.clone()),
        Payload::U16LEIter(words.clone()),
    ] {
        assert_eq!(lcd.send_data(&payload).unwrap(), expected);
    }
}

#[test]
fn command_words_go_to_command_address() {
    let lcd = lcd();
    let stores = lcd.send_commands(&Payload::U16BE(vec![0x2C, 0xABCD])).unwrap();
    assert_eq!(stores, vec![store(COMMAND_ADDRESS, 0x2C), store(COMMAND_ADDRESS, 0xABCD)]);
}

#[test]
fn empty_payload_writes_nothing() {
    let lcd = lcd();
    assert_eq!(lcd.send_commands(&Payload::U8(vec![])).unwrap(), vec![]);
    assert_eq!(lcd.send_data(&Payload::U16LEIter(vec![])).unwrap(), vec![]);
}

#[test]
fn unsupported_payload_is_refused() {
    let lcd = lcd();
    assert_eq!(lcd.send_commands(&Payload::Unsupported), Err(DispatchError::DataFormatNotImplemented));
    assert_eq!(lcd.send_data(&Payload::Unsupported), Err(DispatchError::DataFormatNotImplemented));
}

#[test]
fn release_returns_the_lines() {
    let (cs, rd, rw, rs, data) = lcd().release();
    assert_eq!((cs, rd, rw, rs), (1, 2, 3, 4));
    assert_eq!(data, [10, 11, 12, 13, 14, 15, 16, 17, 18, 19, 20, 21, 22, 23, 24, 25]);
}

#[test]
fn access_mode_bits() {
    for (mode, bits) in [(AccessMode::A, 0u32), (AccessMode::B, 1), (AccessMode::C, 2), (AccessMode::D, 3)] {
        assert_eq!(mode.to_bits(), bits);
        assert_eq!(AccessMode::from_bits(bits), mode);
        assert_eq!(AccessMode::from_bits(bits | 0x10), mode);
    }
}
