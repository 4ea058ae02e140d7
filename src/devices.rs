//! The I2C device handle and its event dispatcher.

use crate::registers::{
    I2CRegisters, CR1_FILTERS, CR1_INTERRUPTS, CR1_PE, CR2_ADD10, CR2_AUTOEND, CR2_NBYTES, CR2_ONE_BYTE,
    CR2_RD_WRN, CR2_SADD, CR2_SADD1, CR2_START, CR2_STOP, ISR_RXNE, ISR_STOPF, ISR_TC, TIMINGR_FIELDS,
    TIMINGR_STANDARD,
};
use vstd::prelude::*;

verus! {

/// The I2C address mode.
pub enum I2CAddrMode {
    /// 10 bits address mode
    Bits10,
    /// 7 bits address mode
    Bits7,
}

/// An event that the dispatcher hands to the callbacks.
#[derive(Clone, Copy, Debug, PartialEq, Eq, Structural)]
pub enum I2CEvent {
    /// A byte was received.
    Receive(u8),
    /// A stop condition was detected.
    Stop,
    /// The programmed transfer completed.
    TransferCompleted,
}

/// The registers after `I2C::new` configured them: analog filter on, digital
/// filter off, clock stretching on, interrupts on, standard timing, controller
/// enabled.
pub open spec fn configured(r: I2CRegisters) -> I2CRegisters {
    I2CRegisters {
        cr1: ((r.cr1 & !CR1_FILTERS) | CR1_INTERRUPTS) | CR1_PE,
        timingr: (r.timingr & !TIMINGR_FIELDS) | TIMINGR_STANDARD,
        ..r
    }
}

/// The registers after the enable bit was set.
pub open spec fn enabled_regs(r: I2CRegisters) -> I2CRegisters {
    I2CRegisters { cr1: r.cr1 | CR1_PE, ..r }
}

/// The registers after the enable bit was cleared.
pub open spec fn disabled_regs(r: I2CRegisters) -> I2CRegisters {
    I2CRegisters { cr1: r.cr1 & !CR1_PE, ..r }
}

/// The registers after the address mode was selected.
pub open spec fn addr_mode_regs(r: I2CRegisters, mode: I2CAddrMode) -> I2CRegisters {
    match mode {
        I2CAddrMode::Bits10 => I2CRegisters { cr2: r.cr2 | CR2_ADD10, ..r },
        I2CAddrMode::Bits7 => I2CRegisters { cr2: r.cr2 & !CR2_ADD10, ..r },
    }
}

/// The registers after a transaction with the slave at `addr` began, in the
/// address mode that CR2 selects: in 10-bit mode the low ten bits of `addr`
/// fill the whole address field, in 7-bit mode the low seven bits of `addr` go
/// to its bits 7..1; automatic end mode is turned off either way.
pub open spec fn begun_regs(r: I2CRegisters, addr: u16) -> I2CRegisters {
    if r.ten_bit_addressing() {
        I2CRegisters { cr2: (r.cr2 & !(CR2_SADD | CR2_AUTOEND)) | ((addr as u32) & 0x3ff), ..r }
    } else {
        I2CRegisters {
            cr2: (r.cr2 & !(CR2_SADD1 | CR2_AUTOEND)) | (((addr as u32) & 0x7f) << 1),
            ..r
        }
    }
}

/// The registers after a one-byte write of `byte` was started.
pub open spec fn written_regs(r: I2CRegisters, byte: u8) -> I2CRegisters {
    I2CRegisters {
        cr2: ((r.cr2 & !(CR2_RD_WRN | CR2_NBYTES)) | CR2_ONE_BYTE) | CR2_START,
        txdr: byte as u32,
        ..r
    }
}

/// The registers after a read was requested.
pub open spec fn read_requested_regs(r: I2CRegisters) -> I2CRegisters {
    I2CRegisters { cr2: r.cr2 | CR2_RD_WRN | CR2_START, ..r }
}

/// The registers after a stop was requested.
pub open spec fn ended_regs(r: I2CRegisters) -> I2CRegisters {
    I2CRegisters { cr2: r.cr2 | CR2_STOP, ..r }
}

/// The registers after the latched stop flag was cleared.
pub open spec fn stop_cleared_regs(r: I2CRegisters) -> I2CRegisters {
    I2CRegisters { isr: r.isr & !ISR_STOPF, ..r }
}

/// The event that the dispatcher takes from the registers, by the fixed
/// priority receive, then stop, then transfer complete; none if no flag is set.
pub open spec fn pending_event(r: I2CRegisters) -> Option<I2CEvent> {
    if r.rx_full() {
        Some(I2CEvent::Receive(r.rxdr as u8))
    } else if r.stop_flag() {
        Some(I2CEvent::Stop)
    } else if r.transfer_complete() {
        Some(I2CEvent::TransferCompleted)
    } else {
        None
    }
}

/// The registers as the dispatcher hands them to the callback of the pending
/// event: a latched stop is cleared first, nothing else is touched.
pub open spec fn handed_over(r: I2CRegisters) -> I2CRegisters {
    match pending_event(r) {
        Some(I2CEvent::Stop) => stop_cleared_regs(r),
        _ => r,
    }
}

/// What one dispatcher invocation does: the registers go from `before` to
/// `after` through exactly the callback of the pending event, or stay as they
/// are when no event is pending.
pub open spec fn dispatched<C: I2CCallbacks>(callbacks: &C, before: I2CRegisters, after: I2CRegisters) -> bool {
    match pending_event(before) {
        None => after == before,
        Some(I2CEvent::Receive(data)) => callbacks.receive_effect(handed_over(before), data, after),
        Some(I2CEvent::Stop) => callbacks.stop_effect(handed_over(before), after),
        Some(I2CEvent::TransferCompleted) => callbacks.transfer_completed_effect(handed_over(before), after),
    }
}

/// I2C callbacks. It contains the I2C events needed to interact with other devices.
///
/// Each reaction states, as a relation between the registers it was handed and
/// the registers it leaves, what it does to the device.
pub trait I2CCallbacks {
    /// What `stop` does to the registers.
    spec fn stop_effect(&self, before: I2CRegisters, after: I2CRegisters) -> bool;

    /// What `transfer_completed` does to the registers.
    spec fn transfer_completed_effect(&self, before: I2CRegisters, after: I2CRegisters) -> bool;

    /// What `receive` does to the registers, given the received byte.
    spec fn receive_effect(&self, before: I2CRegisters, data: u8, after: I2CRegisters) -> bool;

    /// Called when a stop event is received.
    fn stop(&self, device: &mut I2C)
        ensures
            self.stop_effect(old(device).device, final(device).device),
    ;

    /// Called when a transfer completed event is received.
    fn transfer_completed(&self, device: &mut I2C)
        ensures
            self.transfer_completed_effect(old(device).device, final(device).device),
    ;

    /// Called when a rx buffer full event is received, with the byte read.
    fn receive(&self, device: &mut I2C, data: u8)
        ensures
            self.receive_effect(old(device).device, data, final(device).device),
    ;
}

/// I2C device: the one handle over the register block of a controller.
pub struct I2C {
    /// The register block of the i2c device.
    pub device: I2CRegisters,
}

impl I2C {
    /// Create and initialize the i2c device: analog noise filter on, digital
    /// noise filter off, clock stretching on, event and error interrupts on,
    /// standard timing, then the controller enabled.
    pub fn new(device: I2CRegisters) -> (r: I2C)
        ensures
            r.device == configured(device),
            r.device.enabled(),
    {
        let mut regs = device;
        regs.cr1 = regs.cr1 & !CR1_PE;
        regs.cr1 = (regs.cr1 & !CR1_FILTERS) | CR1_INTERRUPTS;
        regs.timingr = (regs.timingr & !TIMINGR_FIELDS) | TIMINGR_STANDARD;
        let mut i2c = I2C { device: regs };
        i2c.enable();
        let c = device.cr1;
        assert((((c & !CR1_PE) & !CR1_FILTERS) | CR1_INTERRUPTS) | CR1_PE
            == ((c & !CR1_FILTERS) | CR1_INTERRUPTS) | CR1_PE) by (bit_vector);
        assert((((c & !CR1_FILTERS) | CR1_INTERRUPTS) | CR1_PE) & CR1_PE != 0) by (bit_vector);
        i2c
    }

    /// Disable i2c device
    pub fn disable(&mut self)
        ensures
            final(self).device == disabled_regs(old(self).device),
            !final(self).device.enabled(),
    {
        let c = self.device.cr1;
        self.device.cr1 = c & !CR1_PE;
        assert((c & !CR1_PE) & CR1_PE == 0) by (bit_vector);
    }

    /// Enable i2c device
    pub fn enable(&mut self)
        ensures
            final(self).device == enabled_regs(old(self).device),
            final(self).device.enabled(),
    {
        let c = self.device.cr1;
        self.device.cr1 = c | CR1_PE;
        assert((c | CR1_PE) & CR1_PE != 0) by (bit_vector);
    }

    /// Set the address type
    pub fn set_addr_type(&mut self, addr_mode: I2CAddrMode)
        ensures
            final(self).device == addr_mode_regs(old(self).device, addr_mode),
            final(self).device.ten_bit_addressing() == (addr_mode is Bits10),
    {
        let c = self.device.cr2;
        match addr_mode {
            I2CAddrMode::Bits10 => {
                self.device.cr2 = c | CR2_ADD10;
                assert((c | CR2_ADD10) & CR2_ADD10 != 0) by (bit_vector);
            },
            I2CAddrMode::Bits7 => {
                self.device.cr2 = c & !CR2_ADD10;
                assert((c & !CR2_ADD10) & CR2_ADD10 == 0) by (bit_vector);
            },
        }
    }

    /// Begins transmission with a slave: its address goes to the address
    /// field in the configured mode (the caller keeps it within that mode),
    /// and automatic end mode is turned off so that the transaction ends only
    /// on `end`. Nothing is signalled on the bus yet.
    pub fn begin(&mut self, addr: u16)
        ensures
            final(self).device == begun_regs(old(self).device, addr),
            final(self).device.ten_bit_addressing() == old(self).device.ten_bit_addressing(),
            final(self).device.ten_bit_addressing() ==> final(self).device.slave_address_10()
                == addr as u32 & 0x3ff,
            !final(self).device.ten_bit_addressing() ==> final(self).device.slave_address()
                == addr as u32 & 0x7f,
            !final(self).device.auto_end(),
    {
        let c = self.device.cr2;
        let a = addr as u32;
        proof {
            lemma_begin_fields(c, a);
        }
        if c & CR2_ADD10 != 0 {
            self.device.cr2 = (c & !(CR2_SADD | CR2_AUTOEND)) | (a & 0x3ff);
        } else {
            self.device.cr2 = (c & !(CR2_SADD1 | CR2_AUTOEND)) | ((a & 0x7f) << 1);
        }
    }

    /// Ends transmission: requests a stop condition.
    pub fn end(&mut self)
        ensures
            final(self).device == ended_regs(old(self).device),
            final(self).device.stop_requested(),
    {
        let c = self.device.cr2;
        self.device.cr2 = c | CR2_STOP;
        assert((c | CR2_STOP) & CR2_STOP != 0) by (bit_vector);
    }

    /// Write a byte to a slave: a one-byte write transfer, the byte in the
    /// transmit register, then a start condition.
    pub fn write(&mut self, byte: &u8)
        ensures
            final(self).device == written_regs(old(self).device, *byte),
            !final(self).device.reading(),
            final(self).device.byte_count() == 1,
            final(self).device.start_requested(),
            final(self).device.txdr == *byte as u32,
    {
        let c = self.device.cr2;
        self.device.cr2 = (c & !(CR2_RD_WRN | CR2_NBYTES)) | CR2_ONE_BYTE;
        self.device.txdr = *byte as u32;
        self.device.cr2 = self.device.cr2 | CR2_START;
        proof {
            lemma_write_fields(c);
        }
    }

    /// Request read to a slave: a read transfer with a repeated start.
    ///
    /// It is meant to follow an observed transfer complete. Issued before one,
    /// it still sets the same bits, but what then happens on the bus is
    /// unspecified.
    pub fn request_read(&mut self)
        ensures
            final(self).device == read_requested_regs(old(self).device),
            final(self).device.reading(),
            final(self).device.start_requested(),
    {
        let c = self.device.cr2;
        self.device.cr2 = c | CR2_RD_WRN | CR2_START;
        assert((c | CR2_RD_WRN | CR2_START) & CR2_RD_WRN != 0) by (bit_vector);
        assert((c | CR2_RD_WRN | CR2_START) & CR2_START != 0) by (bit_vector);
    }

    /// This function receive the i2c event interrupt and dispatch it to the
    /// corresponding callback: the first of a received byte, a stop, a
    /// completed transfer, and none if no flag is set.
    pub fn event_int<C: I2CCallbacks>(&mut self, callbacks: &C)
        ensures
            dispatched(callbacks, old(self).device, final(self).device),
    {
        if self.rx_buffer_full() {
            let data = self.rx_read();
            callbacks.receive(self, data);
        } else if self.stopped() {
            self.clear_stop();
            callbacks.stop(self);
        } else if self.transfer_completed() {
            callbacks.transfer_completed(self);
        }
    }

    /// Read the rx buffer
    pub fn rx_read(&self) -> (r: u8)
        ensures
            r == self.device.rxdr as u8,
    {
        self.device.rxdr as u8
    }

    /// Is a transfer completed
    pub fn transfer_completed(&self) -> (r: bool)
        ensures
            r == self.device.transfer_complete(),
    {
        self.device.isr & ISR_TC != 0
    }

    /// Is the RX buffer full
    pub fn rx_buffer_full(&self) -> (r: bool)
        ensures
            r == self.device.rx_full(),
    {
        self.device.isr & ISR_RXNE != 0
    }

    /// Is the communication stopped
    pub fn stopped(&self) -> (r: bool)
        ensures
            r == self.device.stop_flag(),
    {
        self.device.isr & ISR_STOPF != 0
    }

    /// clear the stopped flag
    pub fn clear_stop(&mut self)
        ensures
            final(self).device == stop_cleared_regs(old(self).device),
            !final(self).device.stop_flag(),
    {
        let i = self.device.isr;
        self.device.isr = i & !ISR_STOPF;
        assert((i & !ISR_STOPF) & ISR_STOPF == 0) by (bit_vector);
    }

    /// Read the ISR register
    pub fn isr_read(&self) -> (r: u32)
        ensures
            r == self.device.isr,
    {
        self.device.isr
    }
}

/// The fields that `begin` programs into CR2, in either address mode.
proof fn lemma_begin_fields(c: u32, a: u32)
    ensures
        ((c & !(CR2_SADD | CR2_AUTOEND)) | (a & 0x3ff)) & CR2_SADD == a & 0x3ff,
        ((c & !(CR2_SADD | CR2_AUTOEND)) | (a & 0x3ff)) & CR2_ADD10 == c & CR2_ADD10,
        ((c & !(CR2_SADD | CR2_AUTOEND)) | (a & 0x3ff)) & CR2_AUTOEND == 0,
        (((c & !(CR2_SADD1 | CR2_AUTOEND)) | ((a & 0x7f) << 1)) & CR2_SADD1) >> 1 == a & 0x7f,
        ((c & !(CR2_SADD1 | CR2_AUTOEND)) | ((a & 0x7f) << 1)) & CR2_ADD10 == c & CR2_ADD10,
        ((c & !(CR2_SADD1 | CR2_AUTOEND)) | ((a & 0x7f) << 1)) & CR2_AUTOEND == 0,
{
    assert(((c & !(0x3FFu32 | 0x200_0000u32)) | (a & 0x3ff)) & 0x3FFu32 == a & 0x3ff) by (bit_vector);
    assert(((c & !(0x3FFu32 | 0x200_0000u32)) | (a & 0x3ff)) & 0x800u32 == c & 0x800u32) by (bit_vector);
    assert(((c & !(0x3FFu32 | 0x200_0000u32)) | (a & 0x3ff)) & 0x200_0000u32 == 0) by (bit_vector);
    assert((((c & !(0xFEu32 | 0x200_0000u32)) | ((a & 0x7f) << 1)) & 0xFEu32) >> 1 == a & 0x7f) by (bit_vector);
    assert(((c & !(0xFEu32 | 0x200_0000u32)) | ((a & 0x7f) << 1)) & 0x800u32 == c & 0x800u32) by (bit_vector);
    assert(((c & !(0xFEu32 | 0x200_0000u32)) | ((a & 0x7f) << 1)) & 0x200_0000u32 == 0) by (bit_vector);
}

/// The fields that a one-byte write programs into CR2.
proof fn lemma_write_fields(c: u32)
    ensures
        (((c & !(CR2_RD_WRN | CR2_NBYTES)) | CR2_ONE_BYTE) | CR2_START) & CR2_RD_WRN == 0,
        ((((c & !(CR2_RD_WRN | CR2_NBYTES)) | CR2_ONE_BYTE) | CR2_START) & CR2_NBYTES) >> 16 == 1,
        (((c & !(CR2_RD_WRN | CR2_NBYTES)) | CR2_ONE_BYTE) | CR2_START) & CR2_START != 0,
{
    assert((((c & !(0x400u32 | 0xFF_0000u32)) | 0x1_0000u32) | 0x2000u32) & 0x400u32 == 0) by (bit_vector);
    assert(((((c & !(0x400u32 | 0xFF_0000u32)) | 0x1_0000u32) | 0x2000u32) & 0xFF_0000u32) >> 16 == 1) by (bit_vector);
    assert((((c & !(0x400u32 | 0xFF_0000u32)) | 0x1_0000u32) | 0x2000u32) & 0x2000u32 != 0) by (bit_vector);
}

/// Each dispatcher invocation runs exactly one reaction, picked by the fixed
/// priority received byte, then stop, then completed transfer, or none when no
/// flag is set; the flags of lower priority are left as they were, pending for
/// the next invocation.
pub proof fn lemma_dispatch_priority<C: I2CCallbacks>(callbacks: &C, before: I2CRegisters, after: I2CRegisters)
    requires
        dispatched(callbacks, before, after),
    ensures
        before.rx_full() ==> {
            &&& pending_event(before) == Some(I2CEvent::Receive(before.rxdr as u8))
            &&& callbacks.receive_effect(before, before.rxdr as u8, after)
        },
        !before.rx_full() && before.stop_flag() ==> {
            &&& pending_event(before) == Some(I2CEvent::Stop)
            &&& callbacks.stop_effect(stop_cleared_regs(before), after)
            &&& !handed_over(before).stop_flag()
            &&& handed_over(before).transfer_complete() == before.transfer_complete()
        },
        !before.rx_full() && !before.stop_flag() && before.transfer_complete() ==> {
            &&& pending_event(before) == Some(I2CEvent::TransferCompleted)
            &&& callbacks.transfer_completed_effect(before, after)
        },
        !before.rx_full() && !before.stop_flag() && !before.transfer_complete() ==> {
            &&& pending_event(before) == None::<I2CEvent>
            &&& after == before
        },
        pending_event(before) != Some(I2CEvent::Stop) ==> handed_over(before) == before,
{
    let i = before.isr;
    assert((i & !0x20u32) & 0x20u32 == 0) by (bit_vector);
    assert(((i & !0x20u32) & 0x40u32 != 0) == (i & 0x40u32 != 0)) by (bit_vector);
}

/// Clearing the stop flag twice does what clearing it once does, and clearing
/// it when it is already clear changes nothing.
pub proof fn lemma_clear_stop_idempotent(r: I2CRegisters)
    ensures
        stop_cleared_regs(stop_cleared_regs(r)) == stop_cleared_regs(r),
        !r.stop_flag() ==> stop_cleared_regs(r) == r,
{
    let i = r.isr;
    assert((i & !0x20u32) & !0x20u32 == i & !0x20u32) by (bit_vector);
    assert(i & 0x20u32 == 0 ==> i & !0x20u32 == i) by (bit_vector);
}

/// `begin` followed by `write` programs a one-byte write to the given address,
/// with a start condition, whatever the registers held before.
pub proof fn lemma_begin_then_write(r: I2CRegisters, addr: u16, byte: u8)
    ensures
        !written_regs(begun_regs(r, addr), byte).reading(),
        written_regs(begun_regs(r, addr), byte).byte_count() == 1,
        r.ten_bit_addressing() ==> written_regs(begun_regs(r, addr), byte).slave_address_10()
            == addr as u32 & 0x3ff,
        !r.ten_bit_addressing() ==> written_regs(begun_regs(r, addr), byte).slave_address()
            == addr as u32 & 0x7f,
        written_regs(begun_regs(r, addr), byte).ten_bit_addressing() == r.ten_bit_addressing(),
        written_regs(begun_regs(r, addr), byte).start_requested(),
        !written_regs(begun_regs(r, addr), byte).auto_end(),
        written_regs(begun_regs(r, addr), byte).txdr == byte as u32,
{
    let c = r.cr2;
    let a = addr as u32;
    let b = begun_regs(r, addr).cr2;
    lemma_begin_fields(c, a);
    lemma_write_fields(b);
    assert((((b & !(0x400u32 | 0xFF_0000u32)) | 0x1_0000u32) | 0x2000u32) & 0x3FFu32 == b & 0x3FFu32)
        by (bit_vector);
    assert((((b & !(0x400u32 | 0xFF_0000u32)) | 0x1_0000u32) | 0x2000u32) & 0xFEu32 == b & 0xFEu32)
        by (bit_vector);
    assert((((b & !(0x400u32 | 0xFF_0000u32)) | 0x1_0000u32) | 0x2000u32) & 0x800u32 == b & 0x800u32)
        by (bit_vector);
    assert((((b & !(0x400u32 | 0xFF_0000u32)) | 0x1_0000u32) | 0x2000u32) & 0x200_0000u32 == b & 0x200_0000u32)
        by (bit_vector);
}

/// A read requested once a transfer completed is a read with a repeated
/// start, to the same slave address.
pub proof fn lemma_request_read_after_transfer(r: I2CRegisters)
    requires
        r.transfer_complete(),
    ensures
        read_requested_regs(r).reading(),
        read_requested_regs(r).start_requested(),
        read_requested_regs(r).slave_address() == r.slave_address(),
        read_requested_regs(r).ten_bit_addressing() == r.ten_bit_addressing(),
{
    let c = r.cr2;
    assert((c | 0x400u32 | 0x2000u32) & 0x400u32 != 0) by (bit_vector);
    assert((c | 0x400u32 | 0x2000u32) & 0x2000u32 != 0) by (bit_vector);
    assert((c | 0x400u32 | 0x2000u32) & 0xFEu32 == c & 0xFEu32) by (bit_vector);
    assert(((c | 0x400u32 | 0x2000u32) & 0x800u32) == (c & 0x800u32)) by (bit_vector);
}

} // verus!
