//! The controller's registers: one type per register, holding the 32-bit
//! word, with a getter for each field and a setter for each field that
//! software may write. Read-only fields have no setter.

use vstd::prelude::*;
use crate::registers::{bit, field, flag, get_bit, get_field, lemma_low_masks, set_bit, set_field, with_field};

verus! {

/// The OscillatorControl register.
#[derive(Copy, Clone, Debug, PartialEq, Eq)]
pub struct OscillatorControl {
    pub bits: u32,
}

impl OscillatorControl {
    /// Address of the register.
    pub const ADDRESS: u16 = 0xE00;

    /// PLL enable.
    pub fn pllen(&self) -> (r: bool)
        ensures
            r == bit(self.bits, 0),
    {
        get_bit(self.bits, 0)
    }

    /// Sets: pLL enable.
    pub fn set_pllen(&mut self, value: bool)
        ensures
            final(self).bits == with_field(old(self).bits, 0, 1, flag(value)),
    {
        self.bits = set_bit(self.bits, 0, value);
    }

    /// Clock (Oscillator) disable (i.e. sleep mode).
    pub fn oscdis(&self) -> (r: bool)
        ensures
            r == bit(self.bits, 2),
    {
        get_bit(self.bits, 2)
    }

    /// Sets: clock (Oscillator) disable (i.e. sleep mode).
    pub fn set_oscdis(&mut self, value: bool)
        ensures
            final(self).bits == with_field(old(self).bits, 2, 1, flag(value)),
    {
        self.bits = set_bit(self.bits, 2, value);
    }

    /// Low Power Mode.
    pub fn lpmen(&self) -> (r: bool)
        ensures
            r == bit(self.bits, 3),
    {
        get_bit(self.bits, 3)
    }

    /// Sets: low Power Mode.
    pub fn set_lpmen(&mut self, value: bool)
        ensures
            final(self).bits == with_field(old(self).bits, 3, 1, flag(value)),
    {
        self.bits = set_bit(self.bits, 3, value);
    }

    /// System Clock Divisor (the 1-bit code of a ClockDivisor).
    pub fn sclkdiv(&self) -> (r: u32)
        ensures
            r == field(self.bits, 4, 1),
    {
        get_field(self.bits, 4, 1)
    }

    /// Sets: system Clock Divisor (the 1-bit code of a ClockDivisor).
    pub fn set_sclkdiv(&mut self, value: u32)
        requires
            value < 0x2,
        ensures
            final(self).bits == with_field(old(self).bits, 4, 1, value),
    {
        proof {
            lemma_low_masks();
        }
        self.bits = set_field(self.bits, 4, 1, value);
    }

    /// Clock Output Divisor (the 2-bit code of a ClockOutputDivisor).
    pub fn clkodiv(&self) -> (r: u32)
        ensures
            r == field(self.bits, 5, 2),
    {
        get_field(self.bits, 5, 2)
    }

    /// Sets: clock Output Divisor (the 2-bit code of a ClockOutputDivisor).
    pub fn set_clkodiv(&mut self, value: u32)
        requires
            value < 0x4,
        ensures
            final(self).bits == with_field(old(self).bits, 5, 2, value),
    {
        proof {
            lemma_low_masks();
        }
        self.bits = set_field(self.bits, 5, 2, value);
    }

    /// PLL ready.
    pub fn pllrdy(&self) -> (r: bool)
        ensures
            r == bit(self.bits, 8),
    {
        get_bit(self.bits, 8)
    }

    /// Clock ready.
    pub fn oscrdy(&self) -> (r: bool)
        ensures
            r == bit(self.bits, 10),
    {
        get_bit(self.bits, 10)
    }

    /// Synchronized SCLKDIV.
    pub fn sclkrdy(&self) -> (r: bool)
        ensures
            r == bit(self.bits, 12),
    {
        get_bit(self.bits, 12)
    }

}

/// The IOControl register.
#[derive(Copy, Clone, Debug, PartialEq, Eq)]
pub struct IOControl {
    pub bits: u32,
}

impl IOControl {
    /// Address of the register.
    pub const ADDRESS: u16 = 0xE04;

    /// GPIO0 Data Direction.
    pub fn tris0(&self) -> (r: bool)
        ensures
            r == bit(self.bits, 0),
    {
        get_bit(self.bits, 0)
    }

    /// Sets: gPIO0 Data Direction.
    pub fn set_tris0(&mut self, value: bool)
        ensures
            final(self).bits == with_field(old(self).bits, 0, 1, flag(value)),
    {
        self.bits = set_bit(self.bits, 0, value);
    }

    /// GPIO1 Data Direction.
    pub fn tris1(&self) -> (r: bool)
        ensures
            r == bit(self.bits, 1),
    {
        get_bit(self.bits, 1)
    }

    /// Sets: gPIO1 Data Direction.
    pub fn set_tris1(&mut self, value: bool)
        ensures
            final(self).bits == with_field(old(self).bits, 1, 1, flag(value)),
    {
        self.bits = set_bit(self.bits, 1, value);
    }

    /// Enable Transceiver Standby Pin Control.
    pub fn xstbyen(&self) -> (r: bool)
        ensures
            r == bit(self.bits, 6),
    {
        get_bit(self.bits, 6)
    }

    /// Sets: enable Transceiver Standby Pin Control.
    pub fn set_xstbyen(&mut self, value: bool)
        ensures
            final(self).bits == with_field(old(self).bits, 6, 1, flag(value)),
    {
        self.bits = set_bit(self.bits, 6, value);
    }

    /// GPIO0 latch.
    pub fn lat0(&self) -> (r: bool)
        ensures
            r == bit(self.bits, 8),
    {
        get_bit(self.bits, 8)
    }

    /// Sets: gPIO0 latch.
    pub fn set_lat0(&mut self, value: bool)
        ensures
            final(self).bits == with_field(old(self).bits, 8, 1, flag(value)),
    {
        self.bits = set_bit(self.bits, 8, value);
    }

    /// GPIO1 latch.
    pub fn lat1(&self) -> (r: bool)
        ensures
            r == bit(self.bits, 9),
    {
        get_bit(self.bits, 9)
    }

    /// Sets: gPIO1 latch.
    pub fn set_lat1(&mut self, value: bool)
        ensures
            final(self).bits == with_field(old(self).bits, 9, 1, flag(value)),
    {
        self.bits = set_bit(self.bits, 9, value);
    }

    /// GPIO0 status.
    pub fn gpio0(&self) -> (r: bool)
        ensures
            r == bit(self.bits, 16),
    {
        get_bit(self.bits, 16)
    }

    /// Sets: gPIO0 status.
    pub fn set_gpio0(&mut self, value: bool)
        ensures
            final(self).bits == with_field(old(self).bits, 16, 1, flag(value)),
    {
        self.bits = set_bit(self.bits, 16, value);
    }

    /// GPIO1 status.
    pub fn gpio1(&self) -> (r: bool)
        ensures
            r == bit(self.bits, 17),
    {
        get_bit(self.bits, 17)
    }

    /// Sets: gPIO1 status.
    pub fn set_gpio1(&mut self, value: bool)
        ensures
            final(self).bits == with_field(old(self).bits, 17, 1, flag(value)),
    {
        self.bits = set_bit(self.bits, 17, value);
    }

    /// GPIO0 pin mode.
    pub fn pm0(&self) -> (r: bool)
        ensures
            r == bit(self.bits, 24),
    {
        get_bit(self.bits, 24)
    }

    /// Sets: gPIO0 pin mode.
    pub fn set_pm0(&mut self, value: bool)
        ensures
            final(self).bits == with_field(old(self).bits, 24, 1, flag(value)),
    {
        self.bits = set_bit(self.bits, 24, value);
    }

    /// GPIO1 pin mode.
    pub fn pm1(&self) -> (r: bool)
        ensures
            r == bit(self.bits, 25),
    {
        get_bit(self.bits, 25)
    }

    /// Sets: gPIO1 pin mode.
    pub fn set_pm1(&mut self, value: bool)
        ensures
            final(self).bits == with_field(old(self).bits, 25, 1, flag(value)),
    {
        self.bits = set_bit(self.bits, 25, value);
    }

    /// TXCAN Open Drain Mode.
    pub fn txcanod(&self) -> (r: bool)
        ensures
            r == bit(self.bits, 28),
    {
        get_bit(self.bits, 28)
    }

    /// Sets: tXCAN Open Drain Mode.
    pub fn set_txcanod(&mut self, value: bool)
        ensures
            final(self).bits == with_field(old(self).bits, 28, 1, flag(value)),
    {
        self.bits = set_bit(self.bits, 28, value);
    }

    /// Start-of-Frame signal.
    pub fn sof(&self) -> (r: bool)
        ensures
            r == bit(self.bits, 29),
    {
        get_bit(self.bits, 29)
    }

    /// Sets: start-of-Frame signal.
    pub fn set_sof(&mut self, value: bool)
        ensures
            final(self).bits == with_field(old(self).bits, 29, 1, flag(value)),
    {
        self.bits = set_bit(self.bits, 29, value);
    }

    /// Interrupt pins Open Drain Mode.
    pub fn intod(&self) -> (r: bool)
        ensures
            r == bit(self.bits, 30),
    {
        get_bit(self.bits, 30)
    }

    /// Sets: interrupt pins Open Drain Mode.
    pub fn set_intod(&mut self, value: bool)
        ensures
            final(self).bits == with_field(old(self).bits, 30, 1, flag(value)),
    {
        self.bits = set_bit(self.bits, 30, value);
    }

}

/// The CRCStatus register.
#[derive(Copy, Clone, Debug, PartialEq, Eq)]
pub struct CRCStatus {
    pub bits: u32,
}

impl CRCStatus {
    /// Address of the register.
    pub const ADDRESS: u16 = 0xE08;

    /// CRC value from last CRC mismatch.
    pub fn crc(&self) -> (r: u32)
        ensures
            r == field(self.bits, 0, 16),
    {
        get_field(self.bits, 0, 16)
    }

    /// Sets: cRC value from last CRC mismatch.
    pub fn set_crc(&mut self, value: u32)
        requires
            value < 0x10000,
        ensures
            final(self).bits == with_field(old(self).bits, 0, 16, value),
    {
        proof {
            lemma_low_masks();
        }
        self.bits = set_field(self.bits, 0, 16, value);
    }

    /// CRC Error Interrupt Flag.
    pub fn crcerrif(&self) -> (r: bool)
        ensures
            r == bit(self.bits, 16),
    {
        get_bit(self.bits, 16)
    }

    /// Sets: cRC Error Interrupt Flag.
    pub fn set_crcerrif(&mut self, value: bool)
        ensures
            final(self).bits == with_field(old(self).bits, 16, 1, flag(value)),
    {
        self.bits = set_bit(self.bits, 16, value);
    }

    /// CRC Command Format Error Interrupt Flag.
    pub fn ferrif(&self) -> (r: bool)
        ensures
            r == bit(self.bits, 17),
    {
        get_bit(self.bits, 17)
    }

    /// Sets: cRC Command Format Error Interrupt Flag.
    pub fn set_ferrif(&mut self, value: bool)
        ensures
            final(self).bits == with_field(old(self).bits, 17, 1, flag(value)),
    {
        self.bits = set_bit(self.bits, 17, value);
    }

    /// CRC Error Interrupt Enable.
    pub fn crcerrie(&self) -> (r: bool)
        ensures
            r == bit(self.bits, 24),
    {
        get_bit(self.bits, 24)
    }

    /// Sets: cRC Error Interrupt Enable.
    pub fn set_crcerrie(&mut self, value: bool)
        ensures
            final(self).bits == with_field(old(self).bits, 24, 1, flag(value)),
    {
        self.bits = set_bit(self.bits, 24, value);
    }

    /// CRC Command Format Error Interrupt Enable.
    pub fn ferrie(&self) -> (r: bool)
        ensures
            r == bit(self.bits, 25),
    {
        get_bit(self.bits, 25)
    }

    /// Sets: cRC Command Format Error Interrupt Enable.
    pub fn set_ferrie(&mut self, value: bool)
        ensures
            final(self).bits == with_field(old(self).bits, 25, 1, flag(value)),
    {
        self.bits = set_bit(self.bits, 25, value);
    }

}

/// The ECCControl register.
#[derive(Copy, Clone, Debug, PartialEq, Eq)]
pub struct ECCControl {
    pub bits: u32,
}

impl ECCControl {
    /// Address of the register.
    pub const ADDRESS: u16 = 0xE0C;

    /// ECC enable.
    pub fn eccen(&self) -> (r: bool)
        ensures
            r == bit(self.bits, 0),
    {
        get_bit(self.bits, 0)
    }

    /// Sets: eCC enable.
    pub fn set_eccen(&mut self, value: bool)
        ensures
            final(self).bits == with_field(old(self).bits, 0, 1, flag(value)),
    {
        self.bits = set_bit(self.bits, 0, value);
    }

    /// Single Error Detection Interrupt Enable.
    pub fn secie(&self) -> (r: bool)
        ensures
            r == bit(self.bits, 1),
    {
        get_bit(self.bits, 1)
    }

    /// Sets: single Error Detection Interrupt Enable.
    pub fn set_secie(&mut self, value: bool)
        ensures
            final(self).bits == with_field(old(self).bits, 1, 1, flag(value)),
    {
        self.bits = set_bit(self.bits, 1, value);
    }

    /// Double Error Detection Interrupt Enable.
    pub fn dedie(&self) -> (r: bool)
        ensures
            r == bit(self.bits, 2),
    {
        get_bit(self.bits, 2)
    }

    /// Sets: double Error Detection Interrupt Enable.
    pub fn set_dedie(&mut self, value: bool)
        ensures
            final(self).bits == with_field(old(self).bits, 2, 1, flag(value)),
    {
        self.bits = set_bit(self.bits, 2, value);
    }

    /// Parity bits used during write to RAM when ECC is disabled.
    pub fn parity(&self) -> (r: u32)
        ensures
            r == field(self.bits, 8, 7),
    {
        get_field(self.bits, 8, 7)
    }

    /// Sets: parity bits used during write to RAM when ECC is disabled.
    pub fn set_parity(&mut self, value: u32)
        requires
            value < 0x80,
        ensures
            final(self).bits == with_field(old(self).bits, 8, 7, value),
    {
        proof {
            lemma_low_masks();
        }
        self.bits = set_field(self.bits, 8, 7, value);
    }

}

/// The ECCStatus register.
#[derive(Copy, Clone, Debug, PartialEq, Eq)]
pub struct ECCStatus {
    pub bits: u32,
}

impl ECCStatus {
    /// Address of the register.
    pub const ADDRESS: u16 = 0xE10;

    /// Single Error Detection Interrupt Flag.
    pub fn secie(&self) -> (r: bool)
        ensures
            r == bit(self.bits, 1),
    {
        get_bit(self.bits, 1)
    }

    /// Sets: single Error Detection Interrupt Flag.
    pub fn set_secie(&mut self, value: bool)
        ensures
            final(self).bits == with_field(old(self).bits, 1, 1, flag(value)),
    {
        self.bits = set_bit(self.bits, 1, value);
    }

    /// Double Error Detection Interrupt Flag.
    pub fn dedie(&self) -> (r: bool)
        ensures
            r == bit(self.bits, 2),
    {
        get_bit(self.bits, 2)
    }

    /// Sets: double Error Detection Interrupt Flag.
    pub fn set_dedie(&mut self, value: bool)
        ensures
            final(self).bits == with_field(old(self).bits, 2, 1, flag(value)),
    {
        self.bits = set_bit(self.bits, 2, value);
    }

    /// Address where last ECC error occurred.
    pub fn erraddr(&self) -> (r: u32)
        ensures
            r == field(self.bits, 16, 12),
    {
        get_field(self.bits, 16, 12)
    }

}

/// The DeviceID register.
#[derive(Copy, Clone, Debug, PartialEq, Eq)]
pub struct DeviceID {
    pub bits: u32,
}

impl DeviceID {
    /// Address of the register.
    pub const ADDRESS: u16 = 0xE14;

    /// Silicon Revision.
    pub fn rev(&self) -> (r: u32)
        ensures
            r == field(self.bits, 0, 4),
    {
        get_field(self.bits, 0, 4)
    }

    /// Device ID.
    pub fn id(&self) -> (r: u32)
        ensures
            r == field(self.bits, 4, 4),
    {
        get_field(self.bits, 4, 4)
    }

}

/// The CANControl register.
#[derive(Copy, Clone, Debug, PartialEq, Eq)]
pub struct CANControl {
    pub bits: u32,
}

impl CANControl {
    /// Address of the register.
    pub const ADDRESS: u16 = 0x000;

    /// Device Net Filter Bit Number.
    pub fn dncnt(&self) -> (r: u32)
        ensures
            r == field(self.bits, 0, 5),
    {
        get_field(self.bits, 0, 5)
    }

    /// Sets: device Net Filter Bit Number.
    pub fn set_dncnt(&mut self, value: u32)
        requires
            value < 0x20,
        ensures
            final(self).bits == with_field(old(self).bits, 0, 5, value),
    {
        proof {
            lemma_low_masks();
        }
        self.bits = set_field(self.bits, 0, 5, value);
    }

    /// Enable ISO CRC in CAN FD Frames.
    pub fn isocrcen(&self) -> (r: bool)
        ensures
            r == bit(self.bits, 5),
    {
        get_bit(self.bits, 5)
    }

    /// Sets: enable ISO CRC in CAN FD Frames.
    pub fn set_isocrcen(&mut self, value: bool)
        ensures
            final(self).bits == with_field(old(self).bits, 5, 1, flag(value)),
    {
        self.bits = set_bit(self.bits, 5, value);
    }

    /// Protocol Exception Event Detection Disabled.
    pub fn pxedis(&self) -> (r: bool)
        ensures
            r == bit(self.bits, 6),
    {
        get_bit(self.bits, 6)
    }

    /// Sets: protocol Exception Event Detection Disabled.
    pub fn set_pxedis(&mut self, value: bool)
        ensures
            final(self).bits == with_field(old(self).bits, 6, 1, flag(value)),
    {
        self.bits = set_bit(self.bits, 6, value);
    }

    /// Enable CAN Bus Line Wake-up Filter.
    pub fn wakfil(&self) -> (r: bool)
        ensures
            r == bit(self.bits, 8),
    {
        get_bit(self.bits, 8)
    }

    /// Sets: enable CAN Bus Line Wake-up Filter.
    pub fn set_wakfil(&mut self, value: bool)
        ensures
            final(self).bits == with_field(old(self).bits, 8, 1, flag(value)),
    {
        self.bits = set_bit(self.bits, 8, value);
    }

    /// Selectable Wake-up Filter Time.
    pub fn wft(&self) -> (r: u32)
        ensures
            r == field(self.bits, 9, 2),
    {
        get_field(self.bits, 9, 2)
    }

    /// Sets: selectable Wake-up Filter Time.
    pub fn set_wft(&mut self, value: u32)
        requires
            value < 0x4,
        ensures
            final(self).bits == with_field(old(self).bits, 9, 2, value),
    {
        proof {
            lemma_low_masks();
        }
        self.bits = set_field(self.bits, 9, 2, value);
    }

    /// CAN Module is Busy.
    pub fn busy(&self) -> (r: bool)
        ensures
            r == bit(self.bits, 11),
    {
        get_bit(self.bits, 11)
    }

    /// Bit Rate Switching Disable.
    pub fn brsdis(&self) -> (r: bool)
        ensures
            r == bit(self.bits, 12),
    {
        get_bit(self.bits, 12)
    }

    /// Sets: bit Rate Switching Disable.
    pub fn set_brsdis(&mut self, value: bool)
        ensures
            final(self).bits == with_field(old(self).bits, 12, 1, flag(value)),
    {
        self.bits = set_bit(self.bits, 12, value);
    }

    /// Restrict Retransmission Attempts.
    pub fn rtxat(&self) -> (r: bool)
        ensures
            r == bit(self.bits, 16),
    {
        get_bit(self.bits, 16)
    }

    /// Sets: restrict Retransmission Attempts.
    pub fn set_rtxat(&mut self, value: bool)
        ensures
            final(self).bits == with_field(old(self).bits, 16, 1, flag(value)),
    {
        self.bits = set_bit(self.bits, 16, value);
    }

    /// Transmit ESI in Gateway Mode.
    pub fn esigm(&self) -> (r: bool)
        ensures
            r == bit(self.bits, 17),
    {
        get_bit(self.bits, 17)
    }

    /// Sets: transmit ESI in Gateway Mode.
    pub fn set_esigm(&mut self, value: bool)
        ensures
            final(self).bits == with_field(old(self).bits, 17, 1, flag(value)),
    {
        self.bits = set_bit(self.bits, 17, value);
    }

    /// Transition to Listen Only Mode on System Error.
    pub fn serr2lom(&self) -> (r: bool)
        ensures
            r == bit(self.bits, 18),
    {
        get_bit(self.bits, 18)
    }

    /// Sets: transition to Listen Only Mode on System Error.
    pub fn set_serr2lom(&mut self, value: bool)
        ensures
            final(self).bits == with_field(old(self).bits, 18, 1, flag(value)),
    {
        self.bits = set_bit(self.bits, 18, value);
    }

    /// Store in Transmit Event FIFO.
    pub fn stef(&self) -> (r: bool)
        ensures
            r == bit(self.bits, 19),
    {
        get_bit(self.bits, 19)
    }

    /// Sets: store in Transmit Event FIFO.
    pub fn set_stef(&mut self, value: bool)
        ensures
            final(self).bits == with_field(old(self).bits, 19, 1, flag(value)),
    {
        self.bits = set_bit(self.bits, 19, value);
    }

    /// Enable Transmission Queue.
    pub fn txqen(&self) -> (r: bool)
        ensures
            r == bit(self.bits, 20),
    {
        get_bit(self.bits, 20)
    }

    /// Sets: enable Transmission Queue.
    pub fn set_txqen(&mut self, value: bool)
        ensures
            final(self).bits == with_field(old(self).bits, 20, 1, flag(value)),
    {
        self.bits = set_bit(self.bits, 20, value);
    }

    /// Abort All Pending Transmissions.
    pub fn abat(&self) -> (r: bool)
        ensures
            r == bit(self.bits, 27),
    {
        get_bit(self.bits, 27)
    }

    /// Sets: abort All Pending Transmissions.
    pub fn set_abat(&mut self, value: bool)
        ensures
            final(self).bits == with_field(old(self).bits, 27, 1, flag(value)),
    {
        self.bits = set_bit(self.bits, 27, value);
    }

    /// Transmit Bandwidth Sharing bits.
    pub fn txbws(&self) -> (r: u32)
        ensures
            r == field(self.bits, 28, 4),
    {
        get_field(self.bits, 28, 4)
    }

    /// Sets: transmit Bandwidth Sharing bits.
    pub fn set_txbws(&mut self, value: u32)
        requires
            value < 0x10,
        ensures
            final(self).bits == with_field(old(self).bits, 28, 4, value),
    {
        proof {
            lemma_low_masks();
        }
        self.bits = set_field(self.bits, 28, 4, value);
    }

}

/// The NominalBitTimeConfig register.
#[derive(Copy, Clone, Debug, PartialEq, Eq)]
pub struct NominalBitTimeConfig {
    pub bits: u32,
}

impl NominalBitTimeConfig {
    /// Address of the register.
    pub const ADDRESS: u16 = 0x004;

    /// Synchronization Jump Width.
    pub fn sjw(&self) -> (r: u32)
        ensures
            r == field(self.bits, 0, 7),
    {
        get_field(self.bits, 0, 7)
    }

    /// Sets: synchronization Jump Width.
    pub fn set_sjw(&mut self, value: u32)
        requires
            value < 0x80,
        ensures
            final(self).bits == with_field(old(self).bits, 0, 7, value),
    {
        proof {
            lemma_low_masks();
        }
        self.bits = set_field(self.bits, 0, 7, value);
    }

    /// Time Segment 2 bits (Phase Segment 2).
    pub fn tseg2(&self) -> (r: u32)
        ensures
            r == field(self.bits, 8, 7),
    {
        get_field(self.bits, 8, 7)
    }

    /// Sets: time Segment 2 bits (Phase Segment 2).
    pub fn set_tseg2(&mut self, value: u32)
        requires
            value < 0x80,
        ensures
            final(self).bits == with_field(old(self).bits, 8, 7, value),
    {
        proof {
            lemma_low_masks();
        }
        self.bits = set_field(self.bits, 8, 7, value);
    }

    /// Time Segment 1 bits (Propagation Segment + Phase Segment 1).
    pub fn tseg1(&self) -> (r: u32)
        ensures
            r == field(self.bits, 16, 8),
    {
        get_field(self.bits, 16, 8)
    }

    /// Sets: time Segment 1 bits (Propagation Segment + Phase Segment 1).
    pub fn set_tseg1(&mut self, value: u32)
        requires
            value < 0x100,
        ensures
            final(self).bits == with_field(old(self).bits, 16, 8, value),
    {
        proof {
            lemma_low_masks();
        }
        self.bits = set_field(self.bits, 16, 8, value);
    }

    /// Baud Rate Prescaler.
    pub fn brp(&self) -> (r: u32)
        ensures
            r == field(self.bits, 24, 8),
    {
        get_field(self.bits, 24, 8)
    }

    /// Sets: baud Rate Prescaler.
    pub fn set_brp(&mut self, value: u32)
        requires
            value < 0x100,
        ensures
            final(self).bits == with_field(old(self).bits, 24, 8, value),
    {
        proof {
            lemma_low_masks();
        }
        self.bits = set_field(self.bits, 24, 8, value);
    }

}

/// The DataBitTimeConfig register.
#[derive(Copy, Clone, Debug, PartialEq, Eq)]
pub struct DataBitTimeConfig {
    pub bits: u32,
}

impl DataBitTimeConfig {
    /// Address of the register.
    pub const ADDRESS: u16 = 0x008;

    /// Synchronization Jump Width.
    pub fn sjw(&self) -> (r: u32)
        ensures
            r == field(self.bits, 0, 4),
    {
        get_field(self.bits, 0, 4)
    }

    /// Sets: synchronization Jump Width.
    pub fn set_sjw(&mut self, value: u32)
        requires
            value < 0x10,
        ensures
            final(self).bits == with_field(old(self).bits, 0, 4, value),
    {
        proof {
            lemma_low_masks();
        }
        self.bits = set_field(self.bits, 0, 4, value);
    }

    /// Time Segment 2 bits (Phase Segment 2).
    pub fn tseg2(&self) -> (r: u32)
        ensures
            r == field(self.bits, 8, 4),
    {
        get_field(self.bits, 8, 4)
    }

    /// Sets: time Segment 2 bits (Phase Segment 2).
    pub fn set_tseg2(&mut self, value: u32)
        requires
            value < 0x10,
        ensures
            final(self).bits == with_field(old(self).bits, 8, 4, value),
    {
        proof {
            lemma_low_masks();
        }
        self.bits = set_field(self.bits, 8, 4, value);
    }

    /// Time Segment 1 bits (Propagation Segment + Phase Segment 1).
    pub fn tseg1(&self) -> (r: u32)
        ensures
            r == field(self.bits, 16, 5),
    {
        get_field(self.bits, 16, 5)
    }

    /// Sets: time Segment 1 bits (Propagation Segment + Phase Segment 1).
    pub fn set_tseg1(&mut self, value: u32)
        requires
            value < 0x20,
        ensures
            final(self).bits == with_field(old(self).bits, 16, 5, value),
    {
        proof {
            lemma_low_masks();
        }
        self.bits = set_field(self.bits, 16, 5, value);
    }

    /// Baud Rate Prescaler.
    pub fn brp(&self) -> (r: u32)
        ensures
            r == field(self.bits, 24, 8),
    {
        get_field(self.bits, 24, 8)
    }

    /// Sets: baud Rate Prescaler.
    pub fn set_brp(&mut self, value: u32)
        requires
            value < 0x100,
        ensures
            final(self).bits == with_field(old(self).bits, 24, 8, value),
    {
        proof {
            lemma_low_masks();
        }
        self.bits = set_field(self.bits, 24, 8, value);
    }

}

/// The TransmitterDelayCompensation register.
#[derive(Copy, Clone, Debug, PartialEq, Eq)]
pub struct TransmitterDelayCompensation {
    pub bits: u32,
}

impl TransmitterDelayCompensation {
    /// Address of the register.
    pub const ADDRESS: u16 = 0x00C;

    /// Transmitter Delay Compensation Value bits; Secondary Sample Point (SSP).
    pub fn tdcv(&self) -> (r: u32)
        ensures
            r == field(self.bits, 0, 6),
    {
        get_field(self.bits, 0, 6)
    }

    /// Sets: transmitter Delay Compensation Value bits; Secondary Sample Point (SSP).
    pub fn set_tdcv(&mut self, value: u32)
        requires
            value < 0x40,
        ensures
            final(self).bits == with_field(old(self).bits, 0, 6, value),
    {
        proof {
            lemma_low_masks();
        }
        self.bits = set_field(self.bits, 0, 6, value);
    }

    /// Transmitter Delay Compensation Offset bits; Secondary Sample Point (SSP).
    pub fn tdco(&self) -> (r: u32)
        ensures
            r == field(self.bits, 8, 7),
    {
        get_field(self.bits, 8, 7)
    }

    /// Sets: transmitter Delay Compensation Offset bits; Secondary Sample Point (SSP).
    pub fn set_tdco(&mut self, value: u32)
        requires
            value < 0x80,
        ensures
            final(self).bits == with_field(old(self).bits, 8, 7, value),
    {
        proof {
            lemma_low_masks();
        }
        self.bits = set_field(self.bits, 8, 7, value);
    }

    /// Transmitter Delay Compensation Mode bits; Secondary Sample Point (SSP).
    pub fn tdcmod(&self) -> (r: u32)
        ensures
            r == field(self.bits, 16, 2),
    {
        get_field(self.bits, 16, 2)
    }

    /// Sets: transmitter Delay Compensation Mode bits; Secondary Sample Point (SSP).
    pub fn set_tdcmod(&mut self, value: u32)
        requires
            value < 0x4,
        ensures
            final(self).bits == with_field(old(self).bits, 16, 2, value),
    {
        proof {
            lemma_low_masks();
        }
        self.bits = set_field(self.bits, 16, 2, value);
    }

    /// Enable 12-Bit SID in CAN FD Base Format Messages.
    pub fn sid11en(&self) -> (r: bool)
        ensures
            r == bit(self.bits, 24),
    {
        get_bit(self.bits, 24)
    }

    /// Sets: enable 12-Bit SID in CAN FD Base Format Messages.
    pub fn set_sid11en(&mut self, value: bool)
        ensures
            final(self).bits == with_field(old(self).bits, 24, 1, flag(value)),
    {
        self.bits = set_bit(self.bits, 24, value);
    }

    /// Enable Edge Filtering during Bus Integration state.
    pub fn edgflten(&self) -> (r: bool)
        ensures
            r == bit(self.bits, 25),
    {
        get_bit(self.bits, 25)
    }

    /// Sets: enable Edge Filtering during Bus Integration state.
    pub fn set_edgflten(&mut self, value: bool)
        ensures
            final(self).bits == with_field(old(self).bits, 25, 1, flag(value)),
    {
        self.bits = set_bit(self.bits, 25, value);
    }

}

/// The TimeBaseCounter register.
#[derive(Copy, Clone, Debug, PartialEq, Eq)]
pub struct TimeBaseCounter {
    pub bits: u32,
}

impl TimeBaseCounter {
    /// Address of the register.
    pub const ADDRESS: u16 = 0x010;

    /// Time Base Counter This is a free running timer that increments every TBCPRE clocks when TBCEN is set.
    pub fn tbc(&self) -> (r: u32)
        ensures
            r == self.bits,
    {
        self.bits
    }

    /// Sets: time Base Counter This is a free running timer that increments every TBCPRE clocks when TBCEN is set.
    pub fn set_tbc(&mut self, value: u32)
        ensures
            final(self).bits == value,
    {
        self.bits = value;
    }

}

/// The TimeStampControl register.
#[derive(Copy, Clone, Debug, PartialEq, Eq)]
pub struct TimeStampControl {
    pub bits: u32,
}

impl TimeStampControl {
    /// Address of the register.
    pub const ADDRESS: u16 = 0x014;

    /// Time Base Counter Prescaler.
    pub fn tbcpre(&self) -> (r: u32)
        ensures
            r == field(self.bits, 0, 10),
    {
        get_field(self.bits, 0, 10)
    }

    /// Sets: time Base Counter Prescaler.
    pub fn set_tbcpre(&mut self, value: u32)
        requires
            value < 0x400,
        ensures
            final(self).bits == with_field(old(self).bits, 0, 10, value),
    {
        proof {
            lemma_low_masks();
        }
        self.bits = set_field(self.bits, 0, 10, value);
    }

    /// Time Base Counter Enable.
    pub fn tbcen(&self) -> (r: bool)
        ensures
            r == bit(self.bits, 16),
    {
        get_bit(self.bits, 16)
    }

    /// Sets: time Base Counter Enable.
    pub fn set_tbcen(&mut self, value: bool)
        ensures
            final(self).bits == with_field(old(self).bits, 16, 1, flag(value)),
    {
        self.bits = set_bit(self.bits, 16, value);
    }

    /// Time Stamp EOF.
    pub fn tseof(&self) -> (r: bool)
        ensures
            r == bit(self.bits, 17),
    {
        get_bit(self.bits, 17)
    }

    /// Sets: time Stamp EOF.
    pub fn set_tseof(&mut self, value: bool)
        ensures
            final(self).bits == with_field(old(self).bits, 17, 1, flag(value)),
    {
        self.bits = set_bit(self.bits, 17, value);
    }

    /// Time Stamp res bit (FD frames only).
    pub fn tsres(&self) -> (r: bool)
        ensures
            r == bit(self.bits, 18),
    {
        get_bit(self.bits, 18)
    }

    /// Sets: time Stamp res bit (FD frames only).
    pub fn set_tsres(&mut self, value: bool)
        ensures
            final(self).bits == with_field(old(self).bits, 18, 1, flag(value)),
    {
        self.bits = set_bit(self.bits, 18, value);
    }

}

/// The InterruptCode register.
#[derive(Copy, Clone, Debug, PartialEq, Eq)]
pub struct InterruptCode {
    pub bits: u32,
}

impl InterruptCode {
    /// Address of the register.
    pub const ADDRESS: u16 = 0x018;

    /// Interrupt Flag Code (the 7-bit code of a InterruptFlag).
    pub fn icode(&self) -> (r: u32)
        ensures
            r == field(self.bits, 0, 7),
    {
        get_field(self.bits, 0, 7)
    }

    /// Filter Hit Number.
    pub fn filhit(&self) -> (r: u32)
        ensures
            r == field(self.bits, 8, 5),
    {
        get_field(self.bits, 8, 5)
    }

    /// Transmit Interrupt Flag Code (the 7-bit code of a InterruptFlag).
    pub fn txcode(&self) -> (r: u32)
        ensures
            r == field(self.bits, 16, 7),
    {
        get_field(self.bits, 16, 7)
    }

    /// Receive Interrupt Flag Code (the 7-bit code of a InterruptFlag).
    pub fn rxcode(&self) -> (r: u32)
        ensures
            r == field(self.bits, 24, 7),
    {
        get_field(self.bits, 24, 7)
    }

}

/// The Interrupts register.
#[derive(Copy, Clone, Debug, PartialEq, Eq)]
pub struct Interrupts {
    pub bits: u32,
}

impl Interrupts {
    /// Address of the register.
    pub const ADDRESS: u16 = 0x01C;

    /// Transmit FIFO Interrupt Flag.
    pub fn txif(&self) -> (r: bool)
        ensures
            r == bit(self.bits, 0),
    {
        get_bit(self.bits, 0)
    }

    /// Receive FIFO Interrupt Flag.
    pub fn rxif(&self) -> (r: bool)
        ensures
            r == bit(self.bits, 1),
    {
        get_bit(self.bits, 1)
    }

    /// Time Base Counter Overflow Interrupt Flag.
    pub fn tbcif(&self) -> (r: bool)
        ensures
            r == bit(self.bits, 2),
    {
        get_bit(self.bits, 2)
    }

    /// Sets: time Base Counter Overflow Interrupt Flag.
    pub fn set_tbcif(&mut self, value: bool)
        ensures
            final(self).bits == with_field(old(self).bits, 2, 1, flag(value)),
    {
        self.bits = set_bit(self.bits, 2, value);
    }

    /// Operation Mode Change Interrupt Flag.
    pub fn modif(&self) -> (r: bool)
        ensures
            r == bit(self.bits, 3),
    {
        get_bit(self.bits, 3)
    }

    /// Sets: operation Mode Change Interrupt Flag.
    pub fn set_modif(&mut self, value: bool)
        ensures
            final(self).bits == with_field(old(self).bits, 3, 1, flag(value)),
    {
        self.bits = set_bit(self.bits, 3, value);
    }

    /// Transmit Event FIFO Interrupt Flag.
    pub fn tefif(&self) -> (r: bool)
        ensures
            r == bit(self.bits, 4),
    {
        get_bit(self.bits, 4)
    }

    /// ECC Error Interrupt Flag.
    pub fn eccif(&self) -> (r: bool)
        ensures
            r == bit(self.bits, 8),
    {
        get_bit(self.bits, 8)
    }

    /// SPI CRC Error Interrupt Flag.
    pub fn spicrcif(&self) -> (r: bool)
        ensures
            r == bit(self.bits, 9),
    {
        get_bit(self.bits, 9)
    }

    /// Transmit Attempt Interrupt Flag.
    pub fn txatif(&self) -> (r: bool)
        ensures
            r == bit(self.bits, 10),
    {
        get_bit(self.bits, 10)
    }

    /// Receive Object Overflow Interrupt Flag.
    pub fn rxovif(&self) -> (r: bool)
        ensures
            r == bit(self.bits, 11),
    {
        get_bit(self.bits, 11)
    }

    /// System Error Interrupt Flag.
    pub fn serrif(&self) -> (r: bool)
        ensures
            r == bit(self.bits, 12),
    {
        get_bit(self.bits, 12)
    }

    /// Sets: system Error Interrupt Flag.
    pub fn set_serrif(&mut self, value: bool)
        ensures
            final(self).bits == with_field(old(self).bits, 12, 1, flag(value)),
    {
        self.bits = set_bit(self.bits, 12, value);
    }

    /// CAN Bus Error Interrupt Flag.
    pub fn cerrif(&self) -> (r: bool)
        ensures
            r == bit(self.bits, 13),
    {
        get_bit(self.bits, 13)
    }

    /// Sets: cAN Bus Error Interrupt Flag.
    pub fn set_cerrif(&mut self, value: bool)
        ensures
            final(self).bits == with_field(old(self).bits, 13, 1, flag(value)),
    {
        self.bits = set_bit(self.bits, 13, value);
    }

    /// Bus Wake Up Interrupt Flag.
    pub fn wakif(&self) -> (r: bool)
        ensures
            r == bit(self.bits, 14),
    {
        get_bit(self.bits, 14)
    }

    /// Sets: bus Wake Up Interrupt Flag.
    pub fn set_wakif(&mut self, value: bool)
        ensures
            final(self).bits == with_field(old(self).bits, 14, 1, flag(value)),
    {
        self.bits = set_bit(self.bits, 14, value);
    }

    /// Invalid Message Interrupt Flag.
    pub fn ivmif(&self) -> (r: bool)
        ensures
            r == bit(self.bits, 15),
    {
        get_bit(self.bits, 15)
    }

    /// Sets: invalid Message Interrupt Flag.
    pub fn set_ivmif(&mut self, value: bool)
        ensures
            final(self).bits == with_field(old(self).bits, 15, 1, flag(value)),
    {
        self.bits = set_bit(self.bits, 15, value);
    }

    /// Transmit FIFO Interrupt Enable.
    pub fn txie(&self) -> (r: bool)
        ensures
            r == bit(self.bits, 16),
    {
        get_bit(self.bits, 16)
    }

    /// Sets: transmit FIFO Interrupt Enable.
    pub fn set_txie(&mut self, value: bool)
        ensures
            final(self).bits == with_field(old(self).bits, 16, 1, flag(value)),
    {
        self.bits = set_bit(self.bits, 16, value);
    }

    /// Receive FIFO Interrupt Enable.
    pub fn rxie(&self) -> (r: bool)
        ensures
            r == bit(self.bits, 17),
    {
        get_bit(self.bits, 17)
    }

    /// Sets: receive FIFO Interrupt Enable.
    pub fn set_rxie(&mut self, value: bool)
        ensures
            final(self).bits == with_field(old(self).bits, 17, 1, flag(value)),
    {
        self.bits = set_bit(self.bits, 17, value);
    }

    /// Time Base Counter Interrupt Enable.
    pub fn tbcie(&self) -> (r: bool)
        ensures
            r == bit(self.bits, 18),
    {
        get_bit(self.bits, 18)
    }

    /// Sets: time Base Counter Interrupt Enable.
    pub fn set_tbcie(&mut self, value: bool)
        ensures
            final(self).bits == with_field(old(self).bits, 18, 1, flag(value)),
    {
        self.bits = set_bit(self.bits, 18, value);
    }

    /// Mode Change Interrupt Enable.
    pub fn modie(&self) -> (r: bool)
        ensures
            r == bit(self.bits, 19),
    {
        get_bit(self.bits, 19)
    }

    /// Sets: mode Change Interrupt Enable.
    pub fn set_modie(&mut self, value: bool)
        ensures
            final(self).bits == with_field(old(self).bits, 19, 1, flag(value)),
    {
        self.bits = set_bit(self.bits, 19, value);
    }

    /// Transmit Event FIFO Interrupt Enable.
    pub fn tefie(&self) -> (r: bool)
        ensures
            r == bit(self.bits, 20),
    {
        get_bit(self.bits, 20)
    }

    /// Sets: transmit Event FIFO Interrupt Enable.
    pub fn set_tefie(&mut self, value: bool)
        ensures
            final(self).bits == with_field(old(self).bits, 20, 1, flag(value)),
    {
        self.bits = set_bit(self.bits, 20, value);
    }

    /// ECC Error Interrupt Enable.
    pub fn eccie(&self) -> (r: bool)
        ensures
            r == bit(self.bits, 24),
    {
        get_bit(self.bits, 24)
    }

    /// Sets: eCC Error Interrupt Enable.
    pub fn set_eccie(&mut self, value: bool)
        ensures
            final(self).bits == with_field(old(self).bits, 24, 1, flag(value)),
    {
        self.bits = set_bit(self.bits, 24, value);
    }

    /// SPI CRC Error Interrupt Enable.
    pub fn spicrcie(&self) -> (r: bool)
        ensures
            r == bit(self.bits, 25),
    {
        get_bit(self.bits, 25)
    }

    /// Sets: sPI CRC Error Interrupt Enable.
    pub fn set_spicrcie(&mut self, value: bool)
        ensures
            final(self).bits == with_field(old(self).bits, 25, 1, flag(value)),
    {
        self.bits = set_bit(self.bits, 25, value);
    }

    /// Transmit Attempt Interrupt Enable.
    pub fn txatie(&self) -> (r: bool)
        ensures
            r == bit(self.bits, 26),
    {
        get_bit(self.bits, 26)
    }

    /// Sets: transmit Attempt Interrupt Enable.
    pub fn set_txatie(&mut self, value: bool)
        ensures
            final(self).bits == with_field(old(self).bits, 26, 1, flag(value)),
    {
        self.bits = set_bit(self.bits, 26, value);
    }

    /// Receive FIFO Overflow Interrupt Enable.
    pub fn rxovie(&self) -> (r: bool)
        ensures
            r == bit(self.bits, 27),
    {
        get_bit(self.bits, 27)
    }

    /// Sets: receive FIFO Overflow Interrupt Enable.
    pub fn set_rxovie(&mut self, value: bool)
        ensures
            final(self).bits == with_field(old(self).bits, 27, 1, flag(value)),
    {
        self.bits = set_bit(self.bits, 27, value);
    }

    /// System Error Interrupt Enable.
    pub fn serrie(&self) -> (r: bool)
        ensures
            r == bit(self.bits, 28),
    {
        get_bit(self.bits, 28)
    }

    /// Sets: system Error Interrupt Enable.
    pub fn set_serrie(&mut self, value: bool)
        ensures
            final(self).bits == with_field(old(self).bits, 28, 1, flag(value)),
    {
        self.bits = set_bit(self.bits, 28, value);
    }

    /// CAN Bus Error Interrupt Enable.
    pub fn cerrie(&self) -> (r: bool)
        ensures
            r == bit(self.bits, 29),
    {
        get_bit(self.bits, 29)
    }

    /// Sets: cAN Bus Error Interrupt Enable.
    pub fn set_cerrie(&mut self, value: bool)
        ensures
            final(self).bits == with_field(old(self).bits, 29, 1, flag(value)),
    {
        self.bits = set_bit(self.bits, 29, value);
    }

    /// Bus Wake Up Interrupt Enable.
    pub fn wakeie(&self) -> (r: bool)
        ensures
            r == bit(self.bits, 30),
    {
        get_bit(self.bits, 30)
    }

    /// Sets: bus Wake Up Interrupt Enable.
    pub fn set_wakeie(&mut self, value: bool)
        ensures
            final(self).bits == with_field(old(self).bits, 30, 1, flag(value)),
    {
        self.bits = set_bit(self.bits, 30, value);
    }

    /// Invalid Message Interrupt Enable.
    pub fn ivmie(&self) -> (r: bool)
        ensures
            r == bit(self.bits, 31),
    {
        get_bit(self.bits, 31)
    }

    /// Sets: invalid Message Interrupt Enable.
    pub fn set_ivmie(&mut self, value: bool)
        ensures
            final(self).bits == with_field(old(self).bits, 31, 1, flag(value)),
    {
        self.bits = set_bit(self.bits, 31, value);
    }

}

/// The ReceiveInterruptStatus register.
#[derive(Copy, Clone, Debug, PartialEq, Eq)]
pub struct ReceiveInterruptStatus {
    pub bits: u32,
}

impl ReceiveInterruptStatus {
    /// Address of the register.
    pub const ADDRESS: u16 = 0x020;

    /// Receive FIFO Interrupt Pending 'or’ of enabled RXFIFO flags; flags will be cleared when the condition of the FIFO terminates.
    pub fn rfif(&self) -> (r: u32)
        ensures
            r == field(self.bits, 1, 31),
    {
        get_field(self.bits, 1, 31)
    }

}

/// The ReceiveOverflowInterruptStatus register.
#[derive(Copy, Clone, Debug, PartialEq, Eq)]
pub struct ReceiveOverflowInterruptStatus {
    pub bits: u32,
}

impl ReceiveOverflowInterruptStatus {
    /// Address of the register.
    pub const ADDRESS: u16 = 0x028;

    /// Receive FIFO Overflow Interrupt Pending.
    pub fn rfovif(&self) -> (r: u32)
        ensures
            r == field(self.bits, 1, 31),
    {
        get_field(self.bits, 1, 31)
    }

}

/// The TransmitInterruptStatus register.
#[derive(Copy, Clone, Debug, PartialEq, Eq)]
pub struct TransmitInterruptStatus {
    pub bits: u32,
}

impl TransmitInterruptStatus {
    /// Address of the register.
    pub const ADDRESS: u16 = 0x024;

    /// TXQ Interrupt Pending.
    pub fn txqif(&self) -> (r: u32)
        ensures
            r == field(self.bits, 0, 1),
    {
        get_field(self.bits, 0, 1)
    }

    /// Transmit FIFO Interrupt Pending 'or’ of enabled TXFIFO flags; flags will be cleared when the condition of the FIFO terminates.
    pub fn tfif(&self) -> (r: u32)
        ensures
            r == field(self.bits, 1, 31),
    {
        get_field(self.bits, 1, 31)
    }

}

/// The TransmitAttemptInterruptStatus register.
#[derive(Copy, Clone, Debug, PartialEq, Eq)]
pub struct TransmitAttemptInterruptStatus {
    pub bits: u32,
}

impl TransmitAttemptInterruptStatus {
    /// Address of the register.
    pub const ADDRESS: u16 = 0x02C;

    /// TXQ Attempt Interrupt Pending.
    pub fn txqatif(&self) -> (r: u32)
        ensures
            r == field(self.bits, 0, 1),
    {
        get_field(self.bits, 0, 1)
    }

    /// Transmit FIFO Attempt Interrupt Pending 'or’ of enabled TXFIFO flags; flags will be cleared when the condition of the FIFO terminates.
    pub fn tfatif(&self) -> (r: u32)
        ensures
            r == field(self.bits, 1, 31),
    {
        get_field(self.bits, 1, 31)
    }

}

/// The TransmitRequest register.
#[derive(Copy, Clone, Debug, PartialEq, Eq)]
pub struct TransmitRequest {
    pub bits: u32,
}

impl TransmitRequest {
    /// Address of the register.
    pub const ADDRESS: u16 = 0x030;

    /// Transmit Queue Message Send Request Will automatically clear when the message(s) queued is/are successfully sent.
    pub fn txqreq(&self) -> (r: bool)
        ensures
            r == bit(self.bits, 0),
    {
        get_bit(self.bits, 0)
    }

    /// Transmit FIFO Message Send Request Will automatically clear when the message(s) queued is/are successfully sent.
    pub fn txreq(&self) -> (r: u32)
        ensures
            r == field(self.bits, 1, 31),
    {
        get_field(self.bits, 1, 31)
    }

}

/// The TransmitReceiveErrorCount register.
#[derive(Copy, Clone, Debug, PartialEq, Eq)]
pub struct TransmitReceiveErrorCount {
    pub bits: u32,
}

impl TransmitReceiveErrorCount {
    /// Address of the register.
    pub const ADDRESS: u16 = 0x034;

    /// Receive Error Counter.
    pub fn rec(&self) -> (r: u32)
        ensures
            r == field(self.bits, 0, 8),
    {
        get_field(self.bits, 0, 8)
    }

    /// Transmit Error Counter.
    pub fn tec(&self) -> (r: u32)
        ensures
            r == field(self.bits, 8, 8),
    {
        get_field(self.bits, 8, 8)
    }

    /// Transmitter or Receiver is in Error Warning State.
    pub fn ewarn(&self) -> (r: bool)
        ensures
            r == bit(self.bits, 16),
    {
        get_bit(self.bits, 16)
    }

    /// Receiver in Error Warning State (128 > REC > 95).
    pub fn rxwarn(&self) -> (r: bool)
        ensures
            r == bit(self.bits, 17),
    {
        get_bit(self.bits, 17)
    }

    /// Transmitter in Error Warning State (128 > TEC > 95.
    pub fn txwarn(&self) -> (r: bool)
        ensures
            r == bit(self.bits, 18),
    {
        get_bit(self.bits, 18)
    }

    /// Receiver in Error Passive State (REC > 127.
    pub fn rxbp(&self) -> (r: bool)
        ensures
            r == bit(self.bits, 19),
    {
        get_bit(self.bits, 19)
    }

    /// Transmitter in Error Passive State (TEC > 127.
    pub fn txbp(&self) -> (r: bool)
        ensures
            r == bit(self.bits, 20),
    {
        get_bit(self.bits, 20)
    }

    /// Transmitter in Bus Off State bit (TEC > 255).
    pub fn txbo(&self) -> (r: bool)
        ensures
            r == bit(self.bits, 21),
    {
        get_bit(self.bits, 21)
    }

}

/// The BusDiagnostic0 register.
#[derive(Copy, Clone, Debug, PartialEq, Eq)]
pub struct BusDiagnostic0 {
    pub bits: u32,
}

impl BusDiagnostic0 {
    /// Address of the register.
    pub const ADDRESS: u16 = 0x038;

    /// Nominal Bit Rate Receive Error Counter.
    pub fn nrerrcnt(&self) -> (r: u32)
        ensures
            r == field(self.bits, 0, 8),
    {
        get_field(self.bits, 0, 8)
    }

    /// Sets: nominal Bit Rate Receive Error Counter.
    pub fn set_nrerrcnt(&mut self, value: u32)
        requires
            value < 0x100,
        ensures
            final(self).bits == with_field(old(self).bits, 0, 8, value),
    {
        proof {
            lemma_low_masks();
        }
        self.bits = set_field(self.bits, 0, 8, value);
    }

    /// Nominal Bit Rate Transmit Error Counter.
    pub fn nterrcnt(&self) -> (r: u32)
        ensures
            r == field(self.bits, 8, 8),
    {
        get_field(self.bits, 8, 8)
    }

    /// Sets: nominal Bit Rate Transmit Error Counter.
    pub fn set_nterrcnt(&mut self, value: u32)
        requires
            value < 0x100,
        ensures
            final(self).bits == with_field(old(self).bits, 8, 8, value),
    {
        proof {
            lemma_low_masks();
        }
        self.bits = set_field(self.bits, 8, 8, value);
    }

    /// Data Bit Rate Receive Error Counter.
    pub fn drerrcnt(&self) -> (r: u32)
        ensures
            r == field(self.bits, 16, 8),
    {
        get_field(self.bits, 16, 8)
    }

    /// Sets: data Bit Rate Receive Error Counter.
    pub fn set_drerrcnt(&mut self, value: u32)
        requires
            value < 0x100,
        ensures
            final(self).bits == with_field(old(self).bits, 16, 8, value),
    {
        proof {
            lemma_low_masks();
        }
        self.bits = set_field(self.bits, 16, 8, value);
    }

    /// Data Bit Rate Transmit Error Counter.
    pub fn dterrcnt(&self) -> (r: u32)
        ensures
            r == field(self.bits, 24, 8),
    {
        get_field(self.bits, 24, 8)
    }

    /// Sets: data Bit Rate Transmit Error Counter.
    pub fn set_dterrcnt(&mut self, value: u32)
        requires
            value < 0x100,
        ensures
            final(self).bits == with_field(old(self).bits, 24, 8, value),
    {
        proof {
            lemma_low_masks();
        }
        self.bits = set_field(self.bits, 24, 8, value);
    }

}

/// The BusDiagnostic1 register.
#[derive(Copy, Clone, Debug, PartialEq, Eq)]
pub struct BusDiagnostic1 {
    pub bits: u32,
}

impl BusDiagnostic1 {
    /// Address of the register.
    pub const ADDRESS: u16 = 0x03C;

    /// Error-free Message Counter.
    pub fn efmsgcnt(&self) -> (r: u32)
        ensures
            r == field(self.bits, 0, 16),
    {
        get_field(self.bits, 0, 16)
    }

    /// Sets: error-free Message Counter.
    pub fn set_efmsgcnt(&mut self, value: u32)
        requires
            value < 0x10000,
        ensures
            final(self).bits == with_field(old(self).bits, 0, 16, value),
    {
        proof {
            lemma_low_masks();
        }
        self.bits = set_field(self.bits, 0, 16, value);
    }

    /// During the transmission of a message (or acknowledge bit, or active error flag, or overload flag), the device wanted to send a dominant level (data or identifier bit logical value ‘0’), but the monitored bus value was recessive.
    pub fn nbit0err(&self) -> (r: bool)
        ensures
            r == bit(self.bits, 16),
    {
        get_bit(self.bits, 16)
    }

    /// Sets: during the transmission of a message (or acknowledge bit, or active error flag, or overload flag), the device wanted to send a dominant level (data or identifier bit logical value ‘0’), but the monitored bus value was recessive.
    pub fn set_nbit0err(&mut self, value: bool)
        ensures
            final(self).bits == with_field(old(self).bits, 16, 1, flag(value)),
    {
        self.bits = set_bit(self.bits, 16, value);
    }

    /// During the transmission of a message (with the exception of the arbitration field), the device wanted to send a recessive level (bit of logical value ‘1’), but the monitored bus value was dominant.
    pub fn nbit1err(&self) -> (r: bool)
        ensures
            r == bit(self.bits, 17),
    {
        get_bit(self.bits, 17)
    }

    /// Sets: during the transmission of a message (with the exception of the arbitration field), the device wanted to send a recessive level (bit of logical value ‘1’), but the monitored bus value was dominant.
    pub fn set_nbit1err(&mut self, value: bool)
        ensures
            final(self).bits == with_field(old(self).bits, 17, 1, flag(value)),
    {
        self.bits = set_bit(self.bits, 17, value);
    }

    /// Transmitted message was not acknowledged.
    pub fn nackerr(&self) -> (r: bool)
        ensures
            r == bit(self.bits, 18),
    {
        get_bit(self.bits, 18)
    }

    /// Sets: transmitted message was not acknowledged.
    pub fn set_nackerr(&mut self, value: bool)
        ensures
            final(self).bits == with_field(old(self).bits, 18, 1, flag(value)),
    {
        self.bits = set_bit(self.bits, 18, value);
    }

    /// A fixed format part of a received frame has the wrong format.
    pub fn nformerr(&self) -> (r: bool)
        ensures
            r == bit(self.bits, 19),
    {
        get_bit(self.bits, 19)
    }

    /// Sets: a fixed format part of a received frame has the wrong format.
    pub fn set_nformerr(&mut self, value: bool)
        ensures
            final(self).bits == with_field(old(self).bits, 19, 1, flag(value)),
    {
        self.bits = set_bit(self.bits, 19, value);
    }

    /// More than 5 equal bits in a sequence have occurred in a part of a received message where this is not allowed.
    pub fn nstuferr(&self) -> (r: bool)
        ensures
            r == bit(self.bits, 20),
    {
        get_bit(self.bits, 20)
    }

    /// Sets: more than 5 equal bits in a sequence have occurred in a part of a received message where this is not allowed.
    pub fn set_nstuferr(&mut self, value: bool)
        ensures
            final(self).bits == with_field(old(self).bits, 20, 1, flag(value)),
    {
        self.bits = set_bit(self.bits, 20, value);
    }

    /// The CRC check sum of a received message was incorrect. The CRC of an incoming message does not match with the CRC calculated from the received data.
    pub fn ncrcerr(&self) -> (r: bool)
        ensures
            r == bit(self.bits, 21),
    {
        get_bit(self.bits, 21)
    }

    /// Sets: the CRC check sum of a received message was incorrect. The CRC of an incoming message does not match with the CRC calculated from the received data.
    pub fn set_ncrcerr(&mut self, value: bool)
        ensures
            final(self).bits == with_field(old(self).bits, 21, 1, flag(value)),
    {
        self.bits = set_bit(self.bits, 21, value);
    }

    /// Device went to bus-off (and auto-recovered).
    pub fn txboerr(&self) -> (r: bool)
        ensures
            r == bit(self.bits, 23),
    {
        get_bit(self.bits, 23)
    }

    /// Sets: device went to bus-off (and auto-recovered).
    pub fn set_txboerr(&mut self, value: bool)
        ensures
            final(self).bits == with_field(old(self).bits, 23, 1, flag(value)),
    {
        self.bits = set_bit(self.bits, 23, value);
    }

    /// DBIT0ERR.
    pub fn dbit0err(&self) -> (r: bool)
        ensures
            r == bit(self.bits, 24),
    {
        get_bit(self.bits, 24)
    }

    /// Sets: dBIT0ERR.
    pub fn set_dbit0err(&mut self, value: bool)
        ensures
            final(self).bits == with_field(old(self).bits, 24, 1, flag(value)),
    {
        self.bits = set_bit(self.bits, 24, value);
    }

    /// DBIT1ERR.
    pub fn dbit1err(&self) -> (r: bool)
        ensures
            r == bit(self.bits, 25),
    {
        get_bit(self.bits, 25)
    }

    /// Sets: dBIT1ERR.
    pub fn set_dbit1err(&mut self, value: bool)
        ensures
            final(self).bits == with_field(old(self).bits, 25, 1, flag(value)),
    {
        self.bits = set_bit(self.bits, 25, value);
    }

    /// DFORMERR.
    pub fn dformerr(&self) -> (r: bool)
        ensures
            r == bit(self.bits, 27),
    {
        get_bit(self.bits, 27)
    }

    /// Sets: dFORMERR.
    pub fn set_dformerr(&mut self, value: bool)
        ensures
            final(self).bits == with_field(old(self).bits, 27, 1, flag(value)),
    {
        self.bits = set_bit(self.bits, 27, value);
    }

    /// DSTUFERR.
    pub fn dstuferr(&self) -> (r: bool)
        ensures
            r == bit(self.bits, 28),
    {
        get_bit(self.bits, 28)
    }

    /// Sets: dSTUFERR.
    pub fn set_dstuferr(&mut self, value: bool)
        ensures
            final(self).bits == with_field(old(self).bits, 28, 1, flag(value)),
    {
        self.bits = set_bit(self.bits, 28, value);
    }

    /// DCRCERR.
    pub fn dcrcerr(&self) -> (r: bool)
        ensures
            r == bit(self.bits, 29),
    {
        get_bit(self.bits, 29)
    }

    /// Sets: dCRCERR.
    pub fn set_dcrcerr(&mut self, value: bool)
        ensures
            final(self).bits == with_field(old(self).bits, 29, 1, flag(value)),
    {
        self.bits = set_bit(self.bits, 29, value);
    }

    /// ESI flag of a received CAN FD message was set.
    pub fn esi(&self) -> (r: bool)
        ensures
            r == bit(self.bits, 30),
    {
        get_bit(self.bits, 30)
    }

    /// Sets: eSI flag of a received CAN FD message was set.
    pub fn set_esi(&mut self, value: bool)
        ensures
            final(self).bits == with_field(old(self).bits, 30, 1, flag(value)),
    {
        self.bits = set_bit(self.bits, 30, value);
    }

    /// DLC Mismatch During a transmission or reception, the specified DLC is larger than the PLSIZE of the FIFO element.
    pub fn dlcmm(&self) -> (r: bool)
        ensures
            r == bit(self.bits, 31),
    {
        get_bit(self.bits, 31)
    }

    /// Sets: dLC Mismatch During a transmission or reception, the specified DLC is larger than the PLSIZE of the FIFO element.
    pub fn set_dlcmm(&mut self, value: bool)
        ensures
            final(self).bits == with_field(old(self).bits, 31, 1, flag(value)),
    {
        self.bits = set_bit(self.bits, 31, value);
    }

}

/// The TransmitEventFIFOControl register.
#[derive(Copy, Clone, Debug, PartialEq, Eq)]
pub struct TransmitEventFIFOControl {
    pub bits: u32,
}

impl TransmitEventFIFOControl {
    /// Address of the register.
    pub const ADDRESS: u16 = 0x040;

    /// Transmit Event FIFO Not Empty Interrupt Enable.
    pub fn tefneie(&self) -> (r: bool)
        ensures
            r == bit(self.bits, 0),
    {
        get_bit(self.bits, 0)
    }

    /// Sets: transmit Event FIFO Not Empty Interrupt Enable.
    pub fn set_tefneie(&mut self, value: bool)
        ensures
            final(self).bits == with_field(old(self).bits, 0, 1, flag(value)),
    {
        self.bits = set_bit(self.bits, 0, value);
    }

    /// Transmit Event FIFO Half Full Interrupt Enable.
    pub fn tefhie(&self) -> (r: bool)
        ensures
            r == bit(self.bits, 1),
    {
        get_bit(self.bits, 1)
    }

    /// Sets: transmit Event FIFO Half Full Interrupt Enable.
    pub fn set_tefhie(&mut self, value: bool)
        ensures
            final(self).bits == with_field(old(self).bits, 1, 1, flag(value)),
    {
        self.bits = set_bit(self.bits, 1, value);
    }

    /// Transmit Event FIFO Full Interrupt Enable.
    pub fn teffie(&self) -> (r: bool)
        ensures
            r == bit(self.bits, 2),
    {
        get_bit(self.bits, 2)
    }

    /// Sets: transmit Event FIFO Full Interrupt Enable.
    pub fn set_teffie(&mut self, value: bool)
        ensures
            final(self).bits == with_field(old(self).bits, 2, 1, flag(value)),
    {
        self.bits = set_bit(self.bits, 2, value);
    }

    /// Transmit Event FIFO Overflow Interrupt Enable.
    pub fn tefovie(&self) -> (r: bool)
        ensures
            r == bit(self.bits, 3),
    {
        get_bit(self.bits, 3)
    }

    /// Sets: transmit Event FIFO Overflow Interrupt Enable.
    pub fn set_tefovie(&mut self, value: bool)
        ensures
            final(self).bits == with_field(old(self).bits, 3, 1, flag(value)),
    {
        self.bits = set_bit(self.bits, 3, value);
    }

    /// Transmit Event FIFO Time Stamp Enable.
    pub fn teftsen(&self) -> (r: bool)
        ensures
            r == bit(self.bits, 5),
    {
        get_bit(self.bits, 5)
    }

    /// Sets: transmit Event FIFO Time Stamp Enable.
    pub fn set_teftsen(&mut self, value: bool)
        ensures
            final(self).bits == with_field(old(self).bits, 5, 1, flag(value)),
    {
        self.bits = set_bit(self.bits, 5, value);
    }

    /// Increment Tail When this bit is set, the FIFO tail will increment by a single message.
    pub fn uinc(&self) -> (r: bool)
        ensures
            r == bit(self.bits, 8),
    {
        get_bit(self.bits, 8)
    }

    /// Sets: increment Tail When this bit is set, the FIFO tail will increment by a single message.
    pub fn set_uinc(&mut self, value: bool)
        ensures
            final(self).bits == with_field(old(self).bits, 8, 1, flag(value)),
    {
        self.bits = set_bit(self.bits, 8, value);
    }

    /// FIFO will reset -- wait to clear before taking action.
    pub fn freset(&self) -> (r: bool)
        ensures
            r == bit(self.bits, 10),
    {
        get_bit(self.bits, 10)
    }

    /// Sets: fIFO will reset -- wait to clear before taking action.
    pub fn set_freset(&mut self, value: bool)
        ensures
            final(self).bits == with_field(old(self).bits, 10, 1, flag(value)),
    {
        self.bits = set_bit(self.bits, 10, value);
    }

    /// FIFO Size Begins at 0b0000 = 1.
    pub fn fsize(&self) -> (r: u32)
        ensures
            r == field(self.bits, 24, 5),
    {
        get_field(self.bits, 24, 5)
    }

    /// Sets: fIFO Size Begins at 0b0000 = 1.
    pub fn set_fsize(&mut self, value: u32)
        requires
            value < 0x20,
        ensures
            final(self).bits == with_field(old(self).bits, 24, 5, value),
    {
        proof {
            lemma_low_masks();
        }
        self.bits = set_field(self.bits, 24, 5, value);
    }

}

/// The TransmitEventFIFOStatus register.
#[derive(Copy, Clone, Debug, PartialEq, Eq)]
pub struct TransmitEventFIFOStatus {
    pub bits: u32,
}

impl TransmitEventFIFOStatus {
    /// Address of the register.
    pub const ADDRESS: u16 = 0x044;

    /// Transmit Event FIFO Not Empty Interrupt Flag.
    pub fn tefneif(&self) -> (r: bool)
        ensures
            r == bit(self.bits, 0),
    {
        get_bit(self.bits, 0)
    }

    /// Transmit Event FIFO Half Full Interrupt Flag.
    pub fn tefhif(&self) -> (r: bool)
        ensures
            r == bit(self.bits, 1),
    {
        get_bit(self.bits, 1)
    }

    /// Transmit Event FIFO Full Interrupt Flag.
    pub fn teffif(&self) -> (r: bool)
        ensures
            r == bit(self.bits, 2),
    {
        get_bit(self.bits, 2)
    }

    /// Transmit Event FIFO Overflow Interrupt Flag.
    pub fn tefovif(&self) -> (r: bool)
        ensures
            r == bit(self.bits, 3),
    {
        get_bit(self.bits, 3)
    }

}

/// The TransmitEventFIFOUserAddress register.
#[derive(Copy, Clone, Debug, PartialEq, Eq)]
pub struct TransmitEventFIFOUserAddress {
    pub bits: u32,
}

impl TransmitEventFIFOUserAddress {
    /// Address of the register.
    pub const ADDRESS: u16 = 0x048;

    /// Transmit Event FIFO User Address The address where the next object is to be read (FIFO tail).
    pub fn tefua(&self) -> (r: u32)
        ensures
            r == self.bits,
    {
        self.bits
    }

}

/// The TransmitQueueControl register.
#[derive(Copy, Clone, Debug, PartialEq, Eq)]
pub struct TransmitQueueControl {
    pub bits: u32,
}

impl TransmitQueueControl {
    /// Address of the register.
    pub const ADDRESS: u16 = 0x050;

    /// Transmit Queue Not Full Interrupt Enable.
    pub fn txqnie(&self) -> (r: bool)
        ensures
            r == bit(self.bits, 0),
    {
        get_bit(self.bits, 0)
    }

    /// Sets: transmit Queue Not Full Interrupt Enable.
    pub fn set_txqnie(&mut self, value: bool)
        ensures
            final(self).bits == with_field(old(self).bits, 0, 1, flag(value)),
    {
        self.bits = set_bit(self.bits, 0, value);
    }

    /// Transmit Queue Empty Interrupt Enable.
    pub fn txqeie(&self) -> (r: bool)
        ensures
            r == bit(self.bits, 2),
    {
        get_bit(self.bits, 2)
    }

    /// Sets: transmit Queue Empty Interrupt Enable.
    pub fn set_txqeie(&mut self, value: bool)
        ensures
            final(self).bits == with_field(old(self).bits, 2, 1, flag(value)),
    {
        self.bits = set_bit(self.bits, 2, value);
    }

    /// Transmit Attempts Exhausted Interrupt Enable.
    pub fn txatie(&self) -> (r: bool)
        ensures
            r == bit(self.bits, 4),
    {
        get_bit(self.bits, 4)
    }

    /// Sets: transmit Attempts Exhausted Interrupt Enable.
    pub fn set_txatie(&mut self, value: bool)
        ensures
            final(self).bits == with_field(old(self).bits, 4, 1, flag(value)),
    {
        self.bits = set_bit(self.bits, 4, value);
    }

    /// TX Enable (always true).
    pub fn txen(&self) -> (r: bool)
        ensures
            r == bit(self.bits, 7),
    {
        get_bit(self.bits, 7)
    }

    /// Sets: tX Enable (always true).
    pub fn set_txen(&mut self, value: bool)
        ensures
            final(self).bits == with_field(old(self).bits, 7, 1, flag(value)),
    {
        self.bits = set_bit(self.bits, 7, value);
    }

    /// Increment Head.
    pub fn uinc(&self) -> (r: bool)
        ensures
            r == bit(self.bits, 8),
    {
        get_bit(self.bits, 8)
    }

    /// Sets: increment Head.
    pub fn set_uinc(&mut self, value: bool)
        ensures
            final(self).bits == with_field(old(self).bits, 8, 1, flag(value)),
    {
        self.bits = set_bit(self.bits, 8, value);
    }

    /// Message Send Request.
    pub fn txreq(&self) -> (r: bool)
        ensures
            r == bit(self.bits, 9),
    {
        get_bit(self.bits, 9)
    }

    /// Sets: message Send Request.
    pub fn set_txreq(&mut self, value: bool)
        ensures
            final(self).bits == with_field(old(self).bits, 9, 1, flag(value)),
    {
        self.bits = set_bit(self.bits, 9, value);
    }

    /// FIFO Reset.
    pub fn freset(&self) -> (r: bool)
        ensures
            r == bit(self.bits, 10),
    {
        get_bit(self.bits, 10)
    }

    /// Sets: fIFO Reset.
    pub fn set_freset(&mut self, value: bool)
        ensures
            final(self).bits == with_field(old(self).bits, 10, 1, flag(value)),
    {
        self.bits = set_bit(self.bits, 10, value);
    }

    /// Message Transmit Priority 0 = lowest, 31 = highest.
    pub fn txpri(&self) -> (r: u32)
        ensures
            r == field(self.bits, 16, 5),
    {
        get_field(self.bits, 16, 5)
    }

    /// Sets: message Transmit Priority 0 = lowest, 31 = highest.
    pub fn set_txpri(&mut self, value: u32)
        requires
            value < 0x20,
        ensures
            final(self).bits == with_field(old(self).bits, 16, 5, value),
    {
        proof {
            lemma_low_masks();
        }
        self.bits = set_field(self.bits, 16, 5, value);
    }

    /// Retransmission Attempts (the 2-bit code of a RetransmissionAttempts).
    pub fn txat(&self) -> (r: u32)
        ensures
            r == field(self.bits, 21, 2),
    {
        get_field(self.bits, 21, 2)
    }

    /// Sets: retransmission Attempts (the 2-bit code of a RetransmissionAttempts).
    pub fn set_txat(&mut self, value: u32)
        requires
            value < 0x4,
        ensures
            final(self).bits == with_field(old(self).bits, 21, 2, value),
    {
        proof {
            lemma_low_masks();
        }
        self.bits = set_field(self.bits, 21, 2, value);
    }

    /// FIFO Size Begins at 0b0000 = 1.
    pub fn fsize(&self) -> (r: u32)
        ensures
            r == field(self.bits, 24, 5),
    {
        get_field(self.bits, 24, 5)
    }

    /// Sets: fIFO Size Begins at 0b0000 = 1.
    pub fn set_fsize(&mut self, value: u32)
        requires
            value < 0x20,
        ensures
            final(self).bits == with_field(old(self).bits, 24, 5, value),
    {
        proof {
            lemma_low_masks();
        }
        self.bits = set_field(self.bits, 24, 5, value);
    }

    /// Payload Size 0b000 = 8, 0b111 = 64.
    pub fn plsize(&self) -> (r: u32)
        ensures
            r == field(self.bits, 29, 3),
    {
        get_field(self.bits, 29, 3)
    }

    /// Sets: payload Size 0b000 = 8, 0b111 = 64.
    pub fn set_plsize(&mut self, value: u32)
        requires
            value < 0x8,
        ensures
            final(self).bits == with_field(old(self).bits, 29, 3, value),
    {
        proof {
            lemma_low_masks();
        }
        self.bits = set_field(self.bits, 29, 3, value);
    }

}

/// The TransmitQueueStatus register.
#[derive(Copy, Clone, Debug, PartialEq, Eq)]
pub struct TransmitQueueStatus {
    pub bits: u32,
}

impl TransmitQueueStatus {
    /// Address of the register.
    pub const ADDRESS: u16 = 0x054;

    /// Transmit Queue Not Full Interrupt Flag.
    pub fn txqnif(&self) -> (r: bool)
        ensures
            r == bit(self.bits, 0),
    {
        get_bit(self.bits, 0)
    }

    /// Transmit Queue Empty Interrupt Flag.
    pub fn txqeif(&self) -> (r: bool)
        ensures
            r == bit(self.bits, 2),
    {
        get_bit(self.bits, 2)
    }

    /// Transmit Attempts Exhausted Interrupt Flag.
    pub fn txatif(&self) -> (r: bool)
        ensures
            r == bit(self.bits, 4),
    {
        get_bit(self.bits, 4)
    }

    /// Sets: transmit Attempts Exhausted Interrupt Flag.
    pub fn set_txatif(&mut self, value: bool)
        ensures
            final(self).bits == with_field(old(self).bits, 4, 1, flag(value)),
    {
        self.bits = set_bit(self.bits, 4, value);
    }

    /// Error Detected During Transmission.
    pub fn txerr(&self) -> (r: bool)
        ensures
            r == bit(self.bits, 5),
    {
        get_bit(self.bits, 5)
    }

    /// Sets: error Detected During Transmission.
    pub fn set_txerr(&mut self, value: bool)
        ensures
            final(self).bits == with_field(old(self).bits, 5, 1, flag(value)),
    {
        self.bits = set_bit(self.bits, 5, value);
    }

    /// Message Lost Arbitration Status.
    pub fn txlarb(&self) -> (r: bool)
        ensures
            r == bit(self.bits, 6),
    {
        get_bit(self.bits, 6)
    }

    /// Sets: message Lost Arbitration Status.
    pub fn set_txlarb(&mut self, value: bool)
        ensures
            final(self).bits == with_field(old(self).bits, 6, 1, flag(value)),
    {
        self.bits = set_bit(self.bits, 6, value);
    }

    /// Message Aborted Status.
    pub fn txabt(&self) -> (r: bool)
        ensures
            r == bit(self.bits, 7),
    {
        get_bit(self.bits, 7)
    }

    /// Sets: message Aborted Status.
    pub fn set_txabt(&mut self, value: bool)
        ensures
            final(self).bits == with_field(old(self).bits, 7, 1, flag(value)),
    {
        self.bits = set_bit(self.bits, 7, value);
    }

    /// Transmit Queue Message Index Index to the message that the FIFO will next attempt to transmit.
    pub fn txqci(&self) -> (r: u32)
        ensures
            r == field(self.bits, 8, 5),
    {
        get_field(self.bits, 8, 5)
    }

}

/// The TransmitQueueUserAddress register.
#[derive(Copy, Clone, Debug, PartialEq, Eq)]
pub struct TransmitQueueUserAddress {
    pub bits: u32,
}

impl TransmitQueueUserAddress {
    /// Address of the register.
    pub const ADDRESS: u16 = 0x058;

    /// TXQ User Address The address where the next message is to be written (TXQ head).
    pub fn txqua(&self) -> (r: u32)
        ensures
            r == self.bits,
    {
        self.bits
    }

}

/// Control register of FIFO `m` (1 to 31), at 0x05C + 12 (m - 1).
#[derive(Copy, Clone, Debug, PartialEq, Eq)]
pub struct FIFOControl {
    pub bits: u32,
}

impl FIFOControl {
    /// Transmit/Receive FIFO Not Full/Not Empty Interrupt Enable.
    pub fn tfnrfnie(&self) -> (r: bool)
        ensures
            r == bit(self.bits, 0),
    {
        get_bit(self.bits, 0)
    }

    /// Sets: transmit/Receive FIFO Not Full/Not Empty Interrupt Enable.
    pub fn set_tfnrfnie(&mut self, value: bool)
        ensures
            final(self).bits == with_field(old(self).bits, 0, 1, flag(value)),
    {
        self.bits = set_bit(self.bits, 0, value);
    }

    /// Transmit/Receive FIFO Half Empty/Half Full Interrupt Enable.
    pub fn tfhrfhie(&self) -> (r: bool)
        ensures
            r == bit(self.bits, 1),
    {
        get_bit(self.bits, 1)
    }

    /// Sets: transmit/Receive FIFO Half Empty/Half Full Interrupt Enable.
    pub fn set_tfhrfhie(&mut self, value: bool)
        ensures
            final(self).bits == with_field(old(self).bits, 1, 1, flag(value)),
    {
        self.bits = set_bit(self.bits, 1, value);
    }

    /// Transmit/Receive FIFO Empty/Full Interrupt Enable.
    pub fn tferffie(&self) -> (r: bool)
        ensures
            r == bit(self.bits, 2),
    {
        get_bit(self.bits, 2)
    }

    /// Sets: transmit/Receive FIFO Empty/Full Interrupt Enable.
    pub fn set_tferffie(&mut self, value: bool)
        ensures
            final(self).bits == with_field(old(self).bits, 2, 1, flag(value)),
    {
        self.bits = set_bit(self.bits, 2, value);
    }

    /// Overflow Interrupt Enable.
    pub fn rxovie(&self) -> (r: bool)
        ensures
            r == bit(self.bits, 3),
    {
        get_bit(self.bits, 3)
    }

    /// Sets: overflow Interrupt Enable.
    pub fn set_rxovie(&mut self, value: bool)
        ensures
            final(self).bits == with_field(old(self).bits, 3, 1, flag(value)),
    {
        self.bits = set_bit(self.bits, 3, value);
    }

    /// Transmit Attempts Exhausted Interrupt Enable.
    pub fn txatie(&self) -> (r: bool)
        ensures
            r == bit(self.bits, 4),
    {
        get_bit(self.bits, 4)
    }

    /// Sets: transmit Attempts Exhausted Interrupt Enable.
    pub fn set_txatie(&mut self, value: bool)
        ensures
            final(self).bits == with_field(old(self).bits, 4, 1, flag(value)),
    {
        self.bits = set_bit(self.bits, 4, value);
    }

    /// Received Message Time Stamp Enable.
    pub fn rxtsen(&self) -> (r: bool)
        ensures
            r == bit(self.bits, 5),
    {
        get_bit(self.bits, 5)
    }

    /// Sets: received Message Time Stamp Enable.
    pub fn set_rxtsen(&mut self, value: bool)
        ensures
            final(self).bits == with_field(old(self).bits, 5, 1, flag(value)),
    {
        self.bits = set_bit(self.bits, 5, value);
    }

    /// Auto RTR Enable.
    pub fn rtren(&self) -> (r: bool)
        ensures
            r == bit(self.bits, 6),
    {
        get_bit(self.bits, 6)
    }

    /// Sets: auto RTR Enable.
    pub fn set_rtren(&mut self, value: bool)
        ensures
            final(self).bits == with_field(old(self).bits, 6, 1, flag(value)),
    {
        self.bits = set_bit(self.bits, 6, value);
    }

    /// TX/RX FIFO Selection true = Transmit, false = Receive.
    pub fn txen(&self) -> (r: bool)
        ensures
            r == bit(self.bits, 7),
    {
        get_bit(self.bits, 7)
    }

    /// Sets: tX/RX FIFO Selection true = Transmit, false = Receive.
    pub fn set_txen(&mut self, value: bool)
        ensures
            final(self).bits == with_field(old(self).bits, 7, 1, flag(value)),
    {
        self.bits = set_bit(self.bits, 7, value);
    }

    /// Increment Head/Tail.
    pub fn uinc(&self) -> (r: bool)
        ensures
            r == bit(self.bits, 8),
    {
        get_bit(self.bits, 8)
    }

    /// Sets: increment Head/Tail.
    pub fn set_uinc(&mut self, value: bool)
        ensures
            final(self).bits == with_field(old(self).bits, 8, 1, flag(value)),
    {
        self.bits = set_bit(self.bits, 8, value);
    }

    /// Message Send Request.
    pub fn txreq(&self) -> (r: bool)
        ensures
            r == bit(self.bits, 9),
    {
        get_bit(self.bits, 9)
    }

    /// Sets: message Send Request.
    pub fn set_txreq(&mut self, value: bool)
        ensures
            final(self).bits == with_field(old(self).bits, 9, 1, flag(value)),
    {
        self.bits = set_bit(self.bits, 9, value);
    }

    /// FIFO Reset.
    pub fn freset(&self) -> (r: bool)
        ensures
            r == bit(self.bits, 10),
    {
        get_bit(self.bits, 10)
    }

    /// Sets: fIFO Reset.
    pub fn set_freset(&mut self, value: bool)
        ensures
            final(self).bits == with_field(old(self).bits, 10, 1, flag(value)),
    {
        self.bits = set_bit(self.bits, 10, value);
    }

    /// Message Transmit Priority.
    pub fn txpri(&self) -> (r: u32)
        ensures
            r == field(self.bits, 16, 5),
    {
        get_field(self.bits, 16, 5)
    }

    /// Sets: message Transmit Priority.
    pub fn set_txpri(&mut self, value: u32)
        requires
            value < 0x20,
        ensures
            final(self).bits == with_field(old(self).bits, 16, 5, value),
    {
        proof {
            lemma_low_masks();
        }
        self.bits = set_field(self.bits, 16, 5, value);
    }

    /// Retransmission Attempts (the 2-bit code of a RetransmissionAttempts).
    pub fn txat(&self) -> (r: u32)
        ensures
            r == field(self.bits, 21, 2),
    {
        get_field(self.bits, 21, 2)
    }

    /// Sets: retransmission Attempts (the 2-bit code of a RetransmissionAttempts).
    pub fn set_txat(&mut self, value: u32)
        requires
            value < 0x4,
        ensures
            final(self).bits == with_field(old(self).bits, 21, 2, value),
    {
        proof {
            lemma_low_masks();
        }
        self.bits = set_field(self.bits, 21, 2, value);
    }

    /// FIFO Size.
    pub fn fsize(&self) -> (r: u32)
        ensures
            r == field(self.bits, 24, 5),
    {
        get_field(self.bits, 24, 5)
    }

    /// Sets: fIFO Size.
    pub fn set_fsize(&mut self, value: u32)
        requires
            value < 0x20,
        ensures
            final(self).bits == with_field(old(self).bits, 24, 5, value),
    {
        proof {
            lemma_low_masks();
        }
        self.bits = set_field(self.bits, 24, 5, value);
    }

    /// Payload Size.
    pub fn plsize(&self) -> (r: u32)
        ensures
            r == field(self.bits, 29, 3),
    {
        get_field(self.bits, 29, 3)
    }

    /// Sets: payload Size.
    pub fn set_plsize(&mut self, value: u32)
        requires
            value < 0x8,
        ensures
            final(self).bits == with_field(old(self).bits, 29, 3, value),
    {
        proof {
            lemma_low_masks();
        }
        self.bits = set_field(self.bits, 29, 3, value);
    }

}

/// Status register of FIFO `m` (1 to 31), at 0x060 + 12 (m - 1).
#[derive(Copy, Clone, Debug, PartialEq, Eq)]
pub struct FIFOStatus {
    pub bits: u32,
}

impl FIFOStatus {
    /// Transmit/Receive FIFO Not Full/Not Empty Interrupt Flag.
    pub fn tfnrfnif(&self) -> (r: bool)
        ensures
            r == bit(self.bits, 0),
    {
        get_bit(self.bits, 0)
    }

    /// Transmit/Receive FIFO Half Empty/Half Full Interrupt Flag.
    pub fn tfhrfhif(&self) -> (r: bool)
        ensures
            r == bit(self.bits, 1),
    {
        get_bit(self.bits, 1)
    }

    /// Transmit/Receive FIFO Empty/Full Interrupt Flag.
    pub fn tferffif(&self) -> (r: bool)
        ensures
            r == bit(self.bits, 2),
    {
        get_bit(self.bits, 2)
    }

    /// Receive FIFO Overflow Interrupt Flag.
    pub fn rxovif(&self) -> (r: bool)
        ensures
            r == bit(self.bits, 3),
    {
        get_bit(self.bits, 3)
    }

    /// Sets: receive FIFO Overflow Interrupt Flag.
    pub fn set_rxovif(&mut self, value: bool)
        ensures
            final(self).bits == with_field(old(self).bits, 3, 1, flag(value)),
    {
        self.bits = set_bit(self.bits, 3, value);
    }

    /// Transmit Attempts Exhausted Interrupt Pending.
    pub fn txatif(&self) -> (r: bool)
        ensures
            r == bit(self.bits, 4),
    {
        get_bit(self.bits, 4)
    }

    /// Sets: transmit Attempts Exhausted Interrupt Pending.
    pub fn set_txatif(&mut self, value: bool)
        ensures
            final(self).bits == with_field(old(self).bits, 4, 1, flag(value)),
    {
        self.bits = set_bit(self.bits, 4, value);
    }

    /// Error Detected During Transmission.
    pub fn txerr(&self) -> (r: bool)
        ensures
            r == bit(self.bits, 5),
    {
        get_bit(self.bits, 5)
    }

    /// Sets: error Detected During Transmission.
    pub fn set_txerr(&mut self, value: bool)
        ensures
            final(self).bits == with_field(old(self).bits, 5, 1, flag(value)),
    {
        self.bits = set_bit(self.bits, 5, value);
    }

    /// Message Lost Arbitration Status.
    pub fn txlarb(&self) -> (r: bool)
        ensures
            r == bit(self.bits, 6),
    {
        get_bit(self.bits, 6)
    }

    /// Sets: message Lost Arbitration Status.
    pub fn set_txlarb(&mut self, value: bool)
        ensures
            final(self).bits == with_field(old(self).bits, 6, 1, flag(value)),
    {
        self.bits = set_bit(self.bits, 6, value);
    }

    /// Message Aborted Status.
    pub fn txabt(&self) -> (r: bool)
        ensures
            r == bit(self.bits, 7),
    {
        get_bit(self.bits, 7)
    }

    /// Sets: message Aborted Status.
    pub fn set_txabt(&mut self, value: bool)
        ensures
            final(self).bits == with_field(old(self).bits, 7, 1, flag(value)),
    {
        self.bits = set_bit(self.bits, 7, value);
    }

    /// FIFO Message Index.
    pub fn fifoci(&self) -> (r: u32)
        ensures
            r == field(self.bits, 8, 5),
    {
        get_field(self.bits, 8, 5)
    }

}

/// User address register of FIFO `m` (1 to 31), at 0x064 + 12 (m - 1): where in message RAM its next message is written or read.
#[derive(Copy, Clone, Debug, PartialEq, Eq)]
pub struct FIFOUserAddress {
    pub bits: u32,
}

impl FIFOUserAddress {
    /// FIFO User Address The address where the next message is to be written (FIFO head) The address where the next message is to be read (FIFO tail).
    pub fn fifoua(&self) -> (r: u32)
        ensures
            r == self.bits,
    {
        self.bits
    }

}

/// Filter control register `m` (0 to 7), at 0x1D0 + 4 m: enable and target FIFO of four filters.
#[derive(Copy, Clone, Debug, PartialEq, Eq)]
pub struct FilterControl {
    pub bits: u32,
}

impl FilterControl {
    /// Pointer to FIFO when Filter 0 hits.
    pub fn f0bp(&self) -> (r: u32)
        ensures
            r == field(self.bits, 0, 5),
    {
        get_field(self.bits, 0, 5)
    }

    /// Sets: pointer to FIFO when Filter 0 hits.
    pub fn set_f0bp(&mut self, value: u32)
        requires
            value < 0x20,
        ensures
            final(self).bits == with_field(old(self).bits, 0, 5, value),
    {
        proof {
            lemma_low_masks();
        }
        self.bits = set_field(self.bits, 0, 5, value);
    }

    /// Enable Filter 0 to Accept Messages.
    pub fn flten0(&self) -> (r: bool)
        ensures
            r == bit(self.bits, 7),
    {
        get_bit(self.bits, 7)
    }

    /// Sets: enable Filter 0 to Accept Messages.
    pub fn set_flten0(&mut self, value: bool)
        ensures
            final(self).bits == with_field(old(self).bits, 7, 1, flag(value)),
    {
        self.bits = set_bit(self.bits, 7, value);
    }

    /// Pointer to FIFO when Filter 1 hits.
    pub fn f1bp(&self) -> (r: u32)
        ensures
            r == field(self.bits, 8, 5),
    {
        get_field(self.bits, 8, 5)
    }

    /// Sets: pointer to FIFO when Filter 1 hits.
    pub fn set_f1bp(&mut self, value: u32)
        requires
            value < 0x20,
        ensures
            final(self).bits == with_field(old(self).bits, 8, 5, value),
    {
        proof {
            lemma_low_masks();
        }
        self.bits = set_field(self.bits, 8, 5, value);
    }

    /// Enable Filter 1 to Accept Messages.
    pub fn flten1(&self) -> (r: bool)
        ensures
            r == bit(self.bits, 15),
    {
        get_bit(self.bits, 15)
    }

    /// Sets: enable Filter 1 to Accept Messages.
    pub fn set_flten1(&mut self, value: bool)
        ensures
            final(self).bits == with_field(old(self).bits, 15, 1, flag(value)),
    {
        self.bits = set_bit(self.bits, 15, value);
    }

    /// Pointer to FIFO when Filter 2 hits.
    pub fn f2bp(&self) -> (r: u32)
        ensures
            r == field(self.bits, 16, 5),
    {
        get_field(self.bits, 16, 5)
    }

    /// Sets: pointer to FIFO when Filter 2 hits.
    pub fn set_f2bp(&mut self, value: u32)
        requires
            value < 0x20,
        ensures
            final(self).bits == with_field(old(self).bits, 16, 5, value),
    {
        proof {
            lemma_low_masks();
        }
        self.bits = set_field(self.bits, 16, 5, value);
    }

    /// Enable Filter 2 to Accept Messages.
    pub fn flten2(&self) -> (r: bool)
        ensures
            r == bit(self.bits, 23),
    {
        get_bit(self.bits, 23)
    }

    /// Sets: enable Filter 2 to Accept Messages.
    pub fn set_flten2(&mut self, value: bool)
        ensures
            final(self).bits == with_field(old(self).bits, 23, 1, flag(value)),
    {
        self.bits = set_bit(self.bits, 23, value);
    }

    /// Pointer to FIFO when Filter 3 hits.
    pub fn f3bp(&self) -> (r: u32)
        ensures
            r == field(self.bits, 24, 5),
    {
        get_field(self.bits, 24, 5)
    }

    /// Sets: pointer to FIFO when Filter 3 hits.
    pub fn set_f3bp(&mut self, value: u32)
        requires
            value < 0x20,
        ensures
            final(self).bits == with_field(old(self).bits, 24, 5, value),
    {
        proof {
            lemma_low_masks();
        }
        self.bits = set_field(self.bits, 24, 5, value);
    }

    /// Enable Filter 3 to Accept Messages.
    pub fn flten3(&self) -> (r: bool)
        ensures
            r == bit(self.bits, 31),
    {
        get_bit(self.bits, 31)
    }

    /// Sets: enable Filter 3 to Accept Messages.
    pub fn set_flten3(&mut self, value: bool)
        ensures
            final(self).bits == with_field(old(self).bits, 31, 1, flag(value)),
    {
        self.bits = set_bit(self.bits, 31, value);
    }

}

/// Filter object register of filter `m` (0 to 31), at 0x1F0 + 8 m.
#[derive(Copy, Clone, Debug, PartialEq, Eq)]
pub struct FilterObject {
    pub bits: u32,
}

impl FilterObject {
    /// Standard Identifier filter.
    pub fn sid(&self) -> (r: u32)
        ensures
            r == field(self.bits, 0, 11),
    {
        get_field(self.bits, 0, 11)
    }

    /// Sets: standard Identifier filter.
    pub fn set_sid(&mut self, value: u32)
        requires
            value < 0x800,
        ensures
            final(self).bits == with_field(old(self).bits, 0, 11, value),
    {
        proof {
            lemma_low_masks();
        }
        self.bits = set_field(self.bits, 0, 11, value);
    }

    /// Extended Identifier bits.
    pub fn eid(&self) -> (r: u32)
        ensures
            r == field(self.bits, 11, 18),
    {
        get_field(self.bits, 11, 18)
    }

    /// Sets: extended Identifier bits.
    pub fn set_eid(&mut self, value: u32)
        requires
            value < 0x40000,
        ensures
            final(self).bits == with_field(old(self).bits, 11, 18, value),
    {
        proof {
            lemma_low_masks();
        }
        self.bits = set_field(self.bits, 11, 18, value);
    }

    /// Standard Identifier filter.
    pub fn sid11(&self) -> (r: bool)
        ensures
            r == bit(self.bits, 29),
    {
        get_bit(self.bits, 29)
    }

    /// Sets: standard Identifier filter.
    pub fn set_sid11(&mut self, value: bool)
        ensures
            final(self).bits == with_field(old(self).bits, 29, 1, flag(value)),
    {
        self.bits = set_bit(self.bits, 29, value);
    }

    /// Extended Identifier enable.
    pub fn exide(&self) -> (r: bool)
        ensures
            r == bit(self.bits, 30),
    {
        get_bit(self.bits, 30)
    }

    /// Sets: extended Identifier enable.
    pub fn set_exide(&mut self, value: bool)
        ensures
            final(self).bits == with_field(old(self).bits, 30, 1, flag(value)),
    {
        self.bits = set_bit(self.bits, 30, value);
    }

}

/// Mask register of filter `m` (0 to 31), at 0x1F4 + 8 m.
#[derive(Copy, Clone, Debug, PartialEq, Eq)]
pub struct Mask {
    pub bits: u32,
}

impl Mask {
    /// Standard Identifier mask.
    pub fn msid(&self) -> (r: u32)
        ensures
            r == field(self.bits, 0, 11),
    {
        get_field(self.bits, 0, 11)
    }

    /// Sets: standard Identifier mask.
    pub fn set_msid(&mut self, value: u32)
        requires
            value < 0x800,
        ensures
            final(self).bits == with_field(old(self).bits, 0, 11, value),
    {
        proof {
            lemma_low_masks();
        }
        self.bits = set_field(self.bits, 0, 11, value);
    }

    /// Extended Identifier mask.
    pub fn meid(&self) -> (r: u32)
        ensures
            r == field(self.bits, 11, 18),
    {
        get_field(self.bits, 11, 18)
    }

    /// Sets: extended Identifier mask.
    pub fn set_meid(&mut self, value: u32)
        requires
            value < 0x40000,
        ensures
            final(self).bits == with_field(old(self).bits, 11, 18, value),
    {
        proof {
            lemma_low_masks();
        }
        self.bits = set_field(self.bits, 11, 18, value);
    }

    /// Standard Identifier mask.
    pub fn msid11(&self) -> (r: bool)
        ensures
            r == bit(self.bits, 29),
    {
        get_bit(self.bits, 29)
    }

    /// Sets: standard Identifier mask.
    pub fn set_msid11(&mut self, value: bool)
        ensures
            final(self).bits == with_field(old(self).bits, 29, 1, flag(value)),
    {
        self.bits = set_bit(self.bits, 29, value);
    }

    /// Identifier Receive mode bit.
    pub fn mide(&self) -> (r: bool)
        ensures
            r == bit(self.bits, 30),
    {
        get_bit(self.bits, 30)
    }

    /// Sets: identifier Receive mode bit.
    pub fn set_mide(&mut self, value: bool)
        ensures
            final(self).bits == with_field(old(self).bits, 30, 1, flag(value)),
    {
        self.bits = set_bit(self.bits, 30, value);
    }

}

} // verus!
