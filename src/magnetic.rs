//! Reading one register of the magnetic sensor: the callback set that drives
//! the transaction from the event interrupt, and the write that starts it.

use crate::devices::{
    addr_mode_regs, begun_regs, dispatched, ended_regs, pending_event, read_requested_regs,
    stop_cleared_regs, written_regs, I2CAddrMode, I2CCallbacks, I2CEvent, I2C,
};
use crate::registers::{I2CRegisters, ISR_RXNE, ISR_STOPF, ISR_TC};
use vstd::prelude::*;

verus! {

/// The bus address of the magnetic sensor.
pub const ADDR_MAGNETIC_SENSOR: u8 = 0x1E;

/// The sensor's CRA_REG_M register, the one that is read.
pub const MAGNETIC_REG_CRA_REG_M: u8 = 0x0;

/// The callback set that reads one register of the magnetic sensor: once the
/// register number is sent it requests the read, once the byte is in it ends
/// the transaction.
pub struct I2CMagRead {}

impl I2CCallbacks for I2CMagRead {
    open spec fn stop_effect(&self, before: I2CRegisters, after: I2CRegisters) -> bool {
        after == before
    }

    open spec fn transfer_completed_effect(&self, before: I2CRegisters, after: I2CRegisters) -> bool {
        after == read_requested_regs(before)
    }

    open spec fn receive_effect(&self, before: I2CRegisters, data: u8, after: I2CRegisters) -> bool {
        after == ended_regs(before)
    }

    fn stop(&self, _dev: &mut I2C) {
    }

    fn transfer_completed(&self, dev: &mut I2C) {
        dev.request_read();
    }

    fn receive(&self, dev: &mut I2C, _data: u8) {
        dev.end();
    }
}

/// The registers once the read of the sensor's register has been started.
pub open spec fn read_started_regs(r: I2CRegisters) -> I2CRegisters {
    written_regs(
        begun_regs(addr_mode_regs(r, I2CAddrMode::Bits7), ADDR_MAGNETIC_SENSOR as u16),
        MAGNETIC_REG_CRA_REG_M,
    )
}

/// Starts the read: 7-bit addressing, a transaction with the sensor, and the
/// number of the register to read written to it. The event interrupt does the
/// rest through `I2CMagRead`.
pub fn start_read(dev: &mut I2C)
    ensures
        final(dev).device == read_started_regs(old(dev).device),
{
    dev.set_addr_type(I2CAddrMode::Bits7);
    dev.begin(ADDR_MAGNETIC_SENSOR as u16);
    dev.write(&MAGNETIC_REG_CRA_REG_M);
}

/// The registers once the controller raised exactly the status flags `isr`.
pub open spec fn with_status(r: I2CRegisters, isr: u32) -> I2CRegisters {
    I2CRegisters { isr: isr, ..r }
}

/// The registers once the controller received `data` and raised the
/// receive flag alone.
pub open spec fn with_received(r: I2CRegisters, data: u8) -> I2CRegisters {
    I2CRegisters { isr: ISR_RXNE, rxdr: data as u32, ..r }
}

/// A completed transfer makes the sensor read request the read.
pub proof fn lemma_transfer_completed_requests_read(before: I2CRegisters, after: I2CRegisters)
    requires
        pending_event(before) == Some(I2CEvent::TransferCompleted),
        dispatched(&I2CMagRead {}, before, after),
    ensures
        after == read_requested_regs(before),
        after.reading(),
        after.start_requested(),
{
    let c = before.cr2;
    assert((c | 0x400u32 | 0x2000u32) & 0x400u32 != 0) by (bit_vector);
    assert((c | 0x400u32 | 0x2000u32) & 0x2000u32 != 0) by (bit_vector);
}

/// The read of one register, driven by the event interrupt: a completed
/// transfer, then a received byte, then a stop, each as the only flag raised,
/// give in this order the read request, the received byte and the stop
/// request, then the clearing of the stop flag, one callback each, after which
/// no event is pending.
pub proof fn lemma_read_sequence(
    s0: I2CRegisters,
    data: u8,
    s1: I2CRegisters,
    s2: I2CRegisters,
    s3: I2CRegisters,
)
    requires
        dispatched(&I2CMagRead {}, with_status(s0, ISR_TC), s1),
        dispatched(&I2CMagRead {}, with_received(s1, data), s2),
        dispatched(&I2CMagRead {}, with_status(s2, ISR_STOPF), s3),
    ensures
        pending_event(with_status(s0, ISR_TC)) == Some(I2CEvent::TransferCompleted),
        s1 == read_requested_regs(with_status(s0, ISR_TC)),
        s1.reading() && s1.start_requested(),
        pending_event(with_received(s1, data)) == Some(I2CEvent::Receive(data)),
        s2 == ended_regs(with_received(s1, data)),
        s2.stop_requested(),
        pending_event(with_status(s2, ISR_STOPF)) == Some(I2CEvent::Stop),
        s3 == stop_cleared_regs(with_status(s2, ISR_STOPF)),
        !s3.stop_flag(),
        pending_event(s3) == None::<I2CEvent>,
{
    assert(0x40u32 & 0x4u32 == 0 && 0x40u32 & 0x20u32 == 0 && 0x40u32 & 0x40u32 != 0) by (bit_vector);
    assert(0x4u32 & 0x4u32 != 0) by (bit_vector);
    assert(0x20u32 & 0x4u32 == 0 && 0x20u32 & 0x20u32 != 0) by (bit_vector);
    assert((0x20u32 & !0x20u32) == 0) by (bit_vector);
    assert(0u32 & 0x4u32 == 0 && 0u32 & 0x20u32 == 0 && 0u32 & 0x40u32 == 0) by (bit_vector);
    let c1 = s0.cr2;
    assert((c1 | 0x400u32 | 0x2000u32) & 0x400u32 != 0) by (bit_vector);
    assert((c1 | 0x400u32 | 0x2000u32) & 0x2000u32 != 0) by (bit_vector);
    let c2 = s1.cr2;
    assert((c2 | 0x4000u32) & 0x4000u32 != 0) by (bit_vector);
}

} // verus!
