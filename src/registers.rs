//! The register block of an STM32F30x I2C controller, held as plain values.
//!
//! Each field is the 32-bit content of one memory-mapped register. The
//! interrupt clear register is write-only: writing one of its bits clears the
//! matching flag of the interrupt and status register, and that is how its
//! effect is held here.

use vstd::prelude::*;

verus! {

/// CR1: peripheral enable.
pub const CR1_PE: u32 = 0x0000_0001;

/// CR1: the interrupt enables the driver turns on (transmit, receive, NACK,
/// stop, transfer complete, error).
pub const CR1_INTERRUPTS: u32 = 0x0000_00F6;

/// CR1: the digital noise filter (DNF), analog filter off (ANFOFF) and clock
/// stretching off (NOSTRETCH), the fields the driver clears: the digital filter
/// ends up off, the analog filter and clock stretching on.
pub const CR1_FILTERS: u32 = 0x0002_1F00;

/// CR2: bits 7..1 of the slave address.
pub const CR2_SADD1: u32 = 0x0000_00FE;

/// CR2: the whole 10-bit slave address field.
pub const CR2_SADD: u32 = 0x0000_03FF;

/// CR2: transfer direction, set for a read.
pub const CR2_RD_WRN: u32 = 0x0000_0400;

/// CR2: 10-bit addressing mode.
pub const CR2_ADD10: u32 = 0x0000_0800;

/// CR2: start generation.
pub const CR2_START: u32 = 0x0000_2000;

/// CR2: stop generation.
pub const CR2_STOP: u32 = 0x0000_4000;

/// CR2: number of bytes of the transfer.
pub const CR2_NBYTES: u32 = 0x00FF_0000;

/// CR2: a byte count of one.
pub const CR2_ONE_BYTE: u32 = 0x0001_0000;

/// CR2: automatic end mode.
pub const CR2_AUTOEND: u32 = 0x0200_0000;

/// ISR: receive data register not empty.
pub const ISR_RXNE: u32 = 0x0000_0004;

/// ISR: stop detected.
pub const ISR_STOPF: u32 = 0x0000_0020;

/// ISR: transfer complete.
pub const ISR_TC: u32 = 0x0000_0040;

/// ISR: transmit data register empty, its only bit set at reset.
pub const ISR_TXE: u32 = 0x0000_0001;

/// TIMINGR: the prescaler, data setup, data hold, SCL high and SCL low fields.
pub const TIMINGR_FIELDS: u32 = 0xF0FF_FFFF;

/// TIMINGR: prescaler 1, SCL low 0x13, SCL high 0xF, data hold 0x2, data setup 0x4.
pub const TIMINGR_STANDARD: u32 = 0x1042_0F13;

/// The registers of one I2C controller that the driver reads or writes.
#[derive(Clone, Copy, Debug, PartialEq, Eq, Structural)]
pub struct I2CRegisters {
    /// Control register 1.
    pub cr1: u32,
    /// Control register 2.
    pub cr2: u32,
    /// Timing register.
    pub timingr: u32,
    /// Interrupt and status register.
    pub isr: u32,
    /// Transmit data register.
    pub txdr: u32,
    /// Receive data register.
    pub rxdr: u32,
}

impl I2CRegisters {
    /// The register contents after a reset of the controller.
    pub fn reset() -> (r: I2CRegisters)
        ensures
            r == (I2CRegisters { cr1: 0, cr2: 0, timingr: 0, isr: ISR_TXE, txdr: 0, rxdr: 0 }),
    {
        I2CRegisters { cr1: 0, cr2: 0, timingr: 0, isr: ISR_TXE, txdr: 0, rxdr: 0 }
    }

    /// The controller enable bit.
    pub open spec fn enabled(self) -> bool {
        self.cr1 & CR1_PE != 0
    }

    /// The 7-bit slave address programmed in CR2.
    pub open spec fn slave_address(self) -> u32 {
        (self.cr2 & CR2_SADD1) >> 1
    }

    /// The 10-bit slave address programmed in CR2.
    pub open spec fn slave_address_10(self) -> u32 {
        self.cr2 & CR2_SADD
    }

    /// The byte count programmed in CR2.
    pub open spec fn byte_count(self) -> u32 {
        (self.cr2 & CR2_NBYTES) >> 16
    }

    /// Whether the programmed direction is a read.
    pub open spec fn reading(self) -> bool {
        self.cr2 & CR2_RD_WRN != 0
    }

    /// Whether 10-bit addressing is selected.
    pub open spec fn ten_bit_addressing(self) -> bool {
        self.cr2 & CR2_ADD10 != 0
    }

    /// Whether start generation has been requested.
    pub open spec fn start_requested(self) -> bool {
        self.cr2 & CR2_START != 0
    }

    /// Whether stop generation has been requested.
    pub open spec fn stop_requested(self) -> bool {
        self.cr2 & CR2_STOP != 0
    }

    /// Whether automatic end mode is selected.
    pub open spec fn auto_end(self) -> bool {
        self.cr2 & CR2_AUTOEND != 0
    }

    /// Whether the receive data register holds a byte.
    pub open spec fn rx_full(self) -> bool {
        self.isr & ISR_RXNE != 0
    }

    /// Whether a stop condition is latched.
    pub open spec fn stop_flag(self) -> bool {
        self.isr & ISR_STOPF != 0
    }

    /// Whether the programmed transfer has completed.
    pub open spec fn transfer_complete(self) -> bool {
        self.isr & ISR_TC != 0
    }
}

} // verus!
