use std::cell::RefCell;

use i2c_device::devices::{I2CAddrMode, I2CCallbacks, I2C};
use i2c_device::magnetic::{start_read, I2CMagRead, ADDR_MAGNETIC_SENSOR};
use i2c_device::registers::{
    I2CRegisters, CR2_ADD10, CR2_AUTOEND, CR2_NBYTES, CR2_RD_WRN, CR2_SADD, CR2_SADD1, CR2_START, CR2_STOP,
    ISR_RXNE, ISR_STOPF, ISR_TC,
};

/// Records each reaction, and otherwise behaves as the sensor read does.
struct Recorder {
    log: RefCell<Vec<String>>,
}

impl Recorder {
    fn new() -> Recorder {
        Recorder { log: RefCell::new(Vec::new()) }
    }

    fn entries(&self) -> Vec<String> {
        self.log.borrow().clone()
    }
}

impl I2CCallbacks for Recorder {
    fn stop_effect(&self, before: I2CRegisters, after: I2CRegisters) -> bool {
        after == before
    }

    fn transfer_completed_effect(&self, before: I2CRegisters, after: I2CRegisters) -> bool {
        after == I2CRegisters { cr2: before.cr2 | CR2_RD_WRN | CR2_START, ..before }
    }

    fn receive_effect(&self, before: I2CRegisters, _data: u8, after: I2CRegisters) -> bool {
        after == I2CRegisters { cr2: before.cr2 | CR2_STOP, ..before }
    }

    fn stop(&self, device: &mut I2C) {
        let flag = device.stopped();
        self.log.borrow_mut().push(format!("stop flag={}", flag));
    }

    fn transfer_completed(&self, device: &mut I2C) {
        self.log.borrow_mut().push("transfer_completed".to_string());
        device.request_read();
    }

    fn receive(&self, device: &mut I2C, data: u8) {
        self.log.borrow_mut().push(format!("receive {:#x}", data));
        device.end();
    }
}

fn handle() -> I2C {
    I2C::new(I2CRegisters::reset())
}

#[test]
fn end_to_end_magnetic_read() {
    let mut i2c = handle();
    i2c.set_addr_type(I2CAddrMode::Bits7);
    i2c.begin(0x1E);
    i2c.write(&0x00);
    assert_eq!((i2c.device.cr2 & CR2_SADD1) >> 1, 0x1E);
    assert_eq!(i2c.device.cr2 & CR2_RD_WRN, 0);
    assert_ne!(i2c.device.cr2 & CR2_START, 0);
    assert_eq!(i2c.device.txdr, 0x00);

    let callbacks = Recorder::new();

    i2c.device.isr = ISR_TC;
    i2c.event_int(&callbacks);
    assert_ne!(i2c.device.cr2 & CR2_RD_WRN, 0);
    assert_ne!(i2c.device.cr2 & CR2_START, 0);
    assert_eq!(i2c.device.cr2 & CR2_STOP, 0);

    i2c.device.isr = ISR_RXNE;
    i2c.device.rxdr = 0x42;
    assert_eq!(i2c.rx_read(), 0x42);
    i2c.event_int(&callbacks);
    assert_ne!(i2c.device.cr2 & CR2_STOP, 0);

    i2c.device.isr = ISR_STOPF;
    i2c.event_int(&callbacks);
    assert!(!i2c.stopped());

    assert_eq!(
        callbacks.entries(),
        vec![
            "transfer_completed".to_string(),
            "receive 0x42".to_string(),
            "stop flag=false".to_string(),
        ]
    );

    // Nothing is pending any more: a further interrupt fires no reaction.
    let before = i2c.device;
    i2c.event_int(&callbacks);
    assert_eq!(i2c.device, before);
    assert_eq!(callbacks.entries().len(), 3);
}

#[test]
fn sensor_read_round_trip() {
    let mut i2c = handle();
    start_read(&mut i2c);
    let mag = I2CMagRead {};

    i2c.device.isr = ISR_TC;
    let before = i2c.device;
    i2c.event_int(&mag);
    assert_eq!(i2c.device.cr2, before.cr2 | CR2_RD_WRN | CR2_START);

    i2c.device.isr = ISR_RXNE;
    i2c.device.rxdr = 0x42;
    assert_eq!(i2c.rx_read(), 0x42);
    let before = i2c.device;
    i2c.event_int(&mag);
    assert_eq!(i2c.device.cr2, before.cr2 | CR2_STOP);

    i2c.device.isr = ISR_STOPF;
    let before = i2c.device;
    i2c.event_int(&mag);
    assert_eq!(i2c.device.isr, 0);
    assert_eq!(i2c.device.cr2, before.cr2);
}

#[test]
fn start_read_programs_sensor_write() {
    let mut i2c = handle();
    start_read(&mut i2c);
    assert_eq!((i2c.device.cr2 & CR2_SADD1) >> 1, ADDR_MAGNETIC_SENSOR as u32);
    assert_eq!(i2c.device.cr2 & CR2_ADD10, 0);
    assert_eq!(i2c.device.cr2 & CR2_AUTOEND, 0);
    assert_eq!((i2c.device.cr2 & CR2_NBYTES) >> 16, 1);
    assert_eq!(i2c.device.cr2, 0x0001_203C);
}

#[test]
fn receive_has_priority_over_stop_and_transfer() {
    let mut i2c = handle();
    let callbacks = Recorder::new();
    i2c.device.isr = ISR_RXNE | ISR_STOPF | ISR_TC;
    i2c.device.rxdr = 0x17;
    i2c.event_int(&callbacks);
    assert_eq!(callbacks.entries(), vec!["receive 0x17".to_string()]);
    // The lower-priority flags stay pending.
    assert_eq!(i2c.device.isr, ISR_RXNE | ISR_STOPF | ISR_TC);
}

#[test]
fn stop_has_priority_over_transfer() {
    let mut i2c = handle();
    let callbacks = Recorder::new();
    i2c.device.isr = ISR_STOPF | ISR_TC;
    i2c.event_int(&callbacks);
    assert_eq!(callbacks.entries(), vec!["stop flag=false".to_string()]);
    assert_eq!(i2c.device.isr, ISR_TC);

    i2c.event_int(&callbacks);
    assert_eq!(
        callbacks.entries(),
        vec!["stop flag=false".to_string(), "transfer_completed".to_string()]
    );
}

#[test]
fn no_flag_no_reaction() {
    let mut i2c = handle();
    let callbacks = Recorder::new();
    i2c.device.isr = 0x0000_0001;
    let before = i2c.device;
    i2c.event_int(&callbacks);
    assert!(callbacks.entries().is_empty());
    assert_eq!(i2c.device, before);
}

#[test]
fn only_status_bits_of_interest_dispatch() {
    let mut i2c = handle();
    let callbacks = Recorder::new();
    // Transmit-empty, NACK and bus-error flags are not events of the dispatcher.
    i2c.device.isr = 0x0000_0111;
    i2c.event_int(&callbacks);
    assert!(callbacks.entries().is_empty());
}

#[test]
fn clear_stop_is_idempotent() {
    let mut i2c = handle();
    i2c.device.isr = ISR_STOPF | ISR_TC;
    assert!(i2c.stopped());
    i2c.clear_stop();
    let once = i2c.device;
    assert!(!i2c.stopped());
    assert_eq!(once.isr, ISR_TC);
    i2c.clear_stop();
    assert_eq!(i2c.device, once);
}

#[test]
fn clear_stop_on_clear_flag_changes_nothing() {
    let mut i2c = handle();
    i2c.device.isr = ISR_TC | ISR_RXNE;
    let before = i2c.device;
    i2c.clear_stop();
    assert_eq!(i2c.device, before);
}

#[test]
fn begin_then_write_ignores_prior_state() {
    let mut i2c = handle();
    i2c.device.cr2 = 0xFFFF_FFFF & !CR2_ADD10;
    i2c.begin(0x1E);
    i2c.write(&0xA5);
    assert_eq!(i2c.device.cr2 & CR2_RD_WRN, 0);
    assert_eq!((i2c.device.cr2 & CR2_NBYTES) >> 16, 1);
    assert_eq!((i2c.device.cr2 & CR2_SADD1) >> 1, 0x1E);
    assert_eq!(i2c.device.cr2 & CR2_AUTOEND, 0);
    assert_ne!(i2c.device.cr2 & CR2_START, 0);
    assert_eq!(i2c.device.txdr, 0xA5);
}

#[test]
fn begin_keeps_low_seven_address_bits() {
    let mut i2c = handle();
    i2c.begin(0x2A5);
    assert_eq!((i2c.device.cr2 & CR2_SADD1) >> 1, 0x25);
    assert_eq!(i2c.device.cr2, 0x4A);
}

#[test]
fn request_read_after_transfer_complete() {
    let mut i2c = handle();
    i2c.begin(0x1E);
    i2c.write(&0x00);
    i2c.device.isr = ISR_TC;
    assert!(i2c.transfer_completed());
    i2c.request_read();
    assert_ne!(i2c.device.cr2 & CR2_RD_WRN, 0);
    assert_ne!(i2c.device.cr2 & CR2_START, 0);
    assert_eq!((i2c.device.cr2 & CR2_SADD1) >> 1, 0x1E);
}

#[test]
fn end_sets_stop_bit() {
    let mut i2c = handle();
    i2c.end();
    assert_eq!(i2c.device.cr2, CR2_STOP);
}

#[test]
fn new_configures_and_enables() {
    let i2c = handle();
    assert_eq!(i2c.device.cr1, 0x0000_00F7);
    assert_eq!(i2c.device.timingr, 0x1042_0F13);
    assert_eq!(i2c.device.cr2, 0);
}

#[test]
fn new_clears_filters_and_keeps_other_bits() {
    let mut regs = I2CRegisters::reset();
    regs.cr1 = 0x0002_1F00 | 0x0010_0000;
    regs.timingr = 0xFFFF_FFFF;
    let i2c = I2C::new(regs);
    assert_eq!(i2c.device.cr1, 0x0010_00F7);
    assert_eq!(i2c.device.timingr, 0x1F42_0F13);
}

#[test]
fn enable_and_disable() {
    let mut i2c = handle();
    i2c.disable();
    assert_eq!(i2c.device.cr1, 0x0000_00F6);
    i2c.enable();
    assert_eq!(i2c.device.cr1, 0x0000_00F7);
}

#[test]
fn address_mode_selection() {
    let mut i2c = handle();
    i2c.set_addr_type(I2CAddrMode::Bits10);
    assert_eq!(i2c.device.cr2, CR2_ADD10);
    i2c.set_addr_type(I2CAddrMode::Bits7);
    assert_eq!(i2c.device.cr2, 0);
}

#[test]
fn status_reads() {
    let mut i2c = handle();
    assert_eq!(i2c.isr_read(), 0x0000_0001);
    assert!(!i2c.rx_buffer_full());
    assert!(!i2c.stopped());
    assert!(!i2c.transfer_completed());
    i2c.device.isr = ISR_RXNE | ISR_STOPF | ISR_TC;
    assert!(i2c.rx_buffer_full());
    assert!(i2c.stopped());
    assert!(i2c.transfer_completed());
    assert_eq!(i2c.isr_read(), 0x64);
}

#[test]
fn rx_read_takes_low_byte() {
    let mut i2c = handle();
    i2c.device.rxdr = 0x1234_56C3;
    assert_eq!(i2c.rx_read(), 0xC3);
}

#[test]
fn begin_in_ten_bit_mode_keeps_whole_address() {
    let mut i2c = handle();
    i2c.device.cr2 = CR2_AUTOEND;
    i2c.set_addr_type(I2CAddrMode::Bits10);
    i2c.begin(0x2A5);
    assert_eq!(i2c.device.cr2 & CR2_SADD, 0x2A5);
    assert_ne!(i2c.device.cr2 & CR2_ADD10, 0);
    assert_eq!(i2c.device.cr2 & CR2_AUTOEND, 0);
    assert_eq!(i2c.device.cr2, CR2_ADD10 | 0x2A5);
}

#[test]
fn begin_in_ten_bit_mode_drops_bits_above_ten() {
    let mut i2c = handle();
    i2c.set_addr_type(I2CAddrMode::Bits10);
    i2c.device.cr2 |= CR2_SADD;
    i2c.begin(0xFC01);
    assert_eq!(i2c.device.cr2 & CR2_SADD, 0x001);
}

#[test]
fn begin_then_write_in_ten_bit_mode() {
    let mut i2c = handle();
    i2c.device.cr2 = 0xFFFF_FFFF;
    i2c.begin(0x31E);
    i2c.write(&0x07);
    assert_eq!(i2c.device.cr2 & CR2_SADD, 0x31E);
    assert_ne!(i2c.device.cr2 & CR2_ADD10, 0);
    assert_eq!(i2c.device.cr2 & CR2_RD_WRN, 0);
    assert_eq!((i2c.device.cr2 & CR2_NBYTES) >> 16, 1);
    assert_eq!(i2c.device.cr2 & CR2_AUTOEND, 0);
    assert_ne!(i2c.device.cr2 & CR2_START, 0);
    assert_eq!(i2c.device.txdr, 0x07);
}
