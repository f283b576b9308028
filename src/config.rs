//! Controller configuration and the bit-timing resolver.

use vstd::prelude::*;
use crate::frame::Id;
use crate::registers::{PayloadSize, RetransmissionAttempts};

verus! {

/// Settings applied by a reset and configuration of the controller.
#[derive(Copy, Clone, Debug)]
pub struct Config {
    pub ecc_enabled: bool,
    pub txq_enabled: bool,
    pub tx_event_fifo_enabled: bool,
    pub iso_crc_enabled: bool,
    pub restrict_retx_attempts: bool,
    pub bit_rate: BitRate,
    pub clock: Clock,
}

impl Default for Config {
    /// ECC and ISO CRC on, transmit queue, transmit event FIFO and restricted
    /// retransmission off, 500 kbit/s arbitration with 2 Mbit/s data, on a
    /// 40 MHz clock.
    fn default() -> (r: Self)
        ensures
            r.ecc_enabled,
            !r.txq_enabled,
            !r.tx_event_fifo_enabled,
            r.iso_crc_enabled,
            !r.restrict_retx_attempts,
            r.bit_rate == (BitRate { arbitration: ArbitrationBitRate::Rate500K, data: DataBitRate::Rate2M }),
            r.clock == Clock::Clock40MHz,
    {
        Config {
            ecc_enabled: true,
            txq_enabled: false,
            tx_event_fifo_enabled: false,
            iso_crc_enabled: true,
            restrict_retx_attempts: false,
            bit_rate: BitRate::default(),
            clock: Clock::Clock40MHz,
        }
    }
}

/// Configuration of one FIFO. `size` is its depth in messages (1 to 32);
/// `tx_attempts` and `priority` (0 to 31) apply to a transmit FIFO only.
#[derive(Copy, Clone, Debug)]
pub struct FIFOConfig {
    pub size: u8,
    pub payload_size: PayloadSize,
    pub transmit: bool,
    pub tx_attempts: RetransmissionAttempts,
    pub priority: u8,
}

impl FIFOConfig {
    /// Whether the depth and priority are in range.
    pub open spec fn valid(self) -> bool {
        1 <= self.size <= 32 && self.priority <= 31
    }
}

/// An acceptance filter: the identifier to match, and whether to match
/// extended identifiers only (else standard ones only).
#[derive(Copy, Clone, Debug)]
pub struct FilterConfig {
    pub match_only_extended: bool,
    pub id: Id,
}

impl FilterConfig {
    /// A filter for `id` that matches identifiers of its kind.
    pub fn from_id(id: Id) -> (r: Self)
        ensures
            r.id == id,
            r.match_only_extended == (id is Extended),
    {
        FilterConfig {
            match_only_extended: match id {
                Id::Extended(_) => true,
                Id::Standard(_) => false,
            },
            id,
        }
    }
}

/// The mask of an acceptance filter: which identifier bits must match, and
/// whether the identifier kind must match too.
#[derive(Copy, Clone, Debug)]
pub struct MaskConfig {
    pub match_id_type: bool,
    pub id: Id,
}

impl MaskConfig {
    /// A mask with the bits of `id`, which leaves the identifier kind free.
    pub fn from_id(id: Id) -> (r: Self)
        ensures
            r.id == id,
            !r.match_id_type,
    {
        MaskConfig { match_id_type: false, id }
    }
}

/// Frequency of the controller's oscillator.
#[derive(Copy, Clone, Debug, PartialEq, Eq)]
pub enum Clock {
    Clock20MHz,
    Clock40MHz,
}

/// Bit rate of the arbitration phase.
#[derive(Copy, Clone, Debug, PartialEq, Eq)]
pub enum ArbitrationBitRate {
    Rate125K,
    Rate250K,
    Rate500K,
    Rate1000K,
}

/// Bit rate of the data phase.
#[derive(Copy, Clone, Debug, PartialEq, Eq)]
pub enum DataBitRate {
    Rate500K,
    Rate833K,
    Rate1M,
    Rate1M5,
    Rate2M,
    Rate3M,
    Rate4M,
    Rate5M,
    Rate6M7,
    Rate8M,
    Rate10M,
}

/// Arbitration and data bit rates.
#[derive(Copy, Clone, Debug, PartialEq, Eq)]
pub struct BitRate {
    pub arbitration: ArbitrationBitRate,
    pub data: DataBitRate,
}

impl Default for BitRate {
    /// 500 kbit/s arbitration, 2 Mbit/s data.
    fn default() -> (r: Self)
        ensures
            r == (BitRate { arbitration: ArbitrationBitRate::Rate500K, data: DataBitRate::Rate2M }),
    {
        BitRate { arbitration: ArbitrationBitRate::Rate500K, data: DataBitRate::Rate2M }
    }
}

/// Register field values for a bit rate pair on a clock.
#[derive(Copy, Clone, Debug, PartialEq, Eq)]
pub struct BitRateConfig {
    pub arbitration_brp: u8,
    pub arbitration_tseg1: u8,
    pub arbitration_tseg2: u8,
    pub arbitration_sjw: u8,
    pub data_brp: u8,
    pub data_tseg1: u8,
    pub data_tseg2: u8,
    pub data_sjw: u8,
    pub tdc_offset: u8,
    pub tdc_value: u8,
    pub tdc_mode: u8,
}

impl BitRateConfig {
    /// Whether every value fits its field in the bit time and delay
    /// compensation registers.
    pub open spec fn fits_registers(self) -> bool {
        &&& self.arbitration_tseg2 < 128
        &&& self.arbitration_sjw < 128
        &&& self.data_tseg1 < 32
        &&& self.data_tseg2 < 16
        &&& self.data_sjw < 16
        &&& self.tdc_value < 64
        &&& self.tdc_offset < 128
        &&& self.tdc_mode < 4
    }
}

/// Delay compensation mode in which the controller measures the delay.
pub const TDC_MODE_AUTO: u8 = 0b10;

/// Delay compensation mode that uses the configured offset alone.
pub const TDC_MODE_MANUAL: u8 = 0;

impl Clock {
    /// Frequency in Hz.
    pub open spec fn hz(self) -> nat {
        match self {
            Clock::Clock20MHz => 20000000,
            Clock::Clock40MHz => 40000000,
        }
    }
}

impl ArbitrationBitRate {
    /// Bit rate in bit/s.
    pub open spec fn bits_per_second(self) -> nat {
        match self {
            ArbitrationBitRate::Rate125K => 125000,
            ArbitrationBitRate::Rate250K => 250000,
            ArbitrationBitRate::Rate500K => 500000,
            ArbitrationBitRate::Rate1000K => 1000000,
        }
    }
}

/// Arbitration phase fields `(brp, tseg1, tseg2, sjw)` for `arbitration` on `clock`.
pub open spec fn nominal_timing(clock: Clock, arbitration: ArbitrationBitRate) -> (u8, u8, u8, u8) {
    match (clock, arbitration) {
        (Clock::Clock40MHz, ArbitrationBitRate::Rate125K) => (0, 254, 63, 63),
        (Clock::Clock40MHz, ArbitrationBitRate::Rate250K) => (0, 126, 31, 31),
        (Clock::Clock40MHz, ArbitrationBitRate::Rate500K) => (0, 62, 15, 15),
        (Clock::Clock40MHz, ArbitrationBitRate::Rate1000K) => (0, 30, 7, 7),
        (Clock::Clock20MHz, ArbitrationBitRate::Rate125K) => (0, 126, 31, 31),
        (Clock::Clock20MHz, ArbitrationBitRate::Rate250K) => (0, 62, 15, 15),
        (Clock::Clock20MHz, ArbitrationBitRate::Rate500K) => (0, 30, 7, 7),
        (Clock::Clock20MHz, ArbitrationBitRate::Rate1000K) => (0, 14, 3, 3),
    }
}

/// Data phase and delay compensation fields
/// `(brp, tseg1, tseg2, sjw, tdc offset, tdc value, tdc mode)` for a bit rate
/// pair on `clock`; none for a pair the controller does not support there.
pub open spec fn data_timing(clock: Clock, arbitration: ArbitrationBitRate, data: DataBitRate) -> Option<
    (u8, u8, u8, u8, u8, u8, u8),
> {
    match (clock, arbitration, data) {
        (Clock::Clock40MHz, ArbitrationBitRate::Rate500K, DataBitRate::Rate1M) => Some((0, 30, 7, 7, 31, 0, 2)),
        (Clock::Clock40MHz, ArbitrationBitRate::Rate500K, DataBitRate::Rate2M) => Some((0, 14, 3, 3, 15, 0, 2)),
        (Clock::Clock40MHz, ArbitrationBitRate::Rate500K, DataBitRate::Rate3M) => Some((0, 8, 2, 2, 9, 0, 2)),
        (Clock::Clock40MHz, ArbitrationBitRate::Rate500K, DataBitRate::Rate4M) => Some((0, 6, 1, 1, 7, 0, 2)),
        (Clock::Clock40MHz, ArbitrationBitRate::Rate1000K, DataBitRate::Rate4M) => Some((0, 6, 1, 1, 7, 0, 2)),
        (Clock::Clock40MHz, ArbitrationBitRate::Rate500K, DataBitRate::Rate5M) => Some((0, 4, 1, 1, 5, 0, 2)),
        (Clock::Clock40MHz, ArbitrationBitRate::Rate500K, DataBitRate::Rate6M7) => Some((0, 3, 0, 0, 4, 0, 2)),
        (Clock::Clock40MHz, ArbitrationBitRate::Rate500K, DataBitRate::Rate8M) => Some((0, 2, 0, 0, 3, 1, 2)),
        (Clock::Clock40MHz, ArbitrationBitRate::Rate1000K, DataBitRate::Rate8M) => Some((0, 2, 0, 0, 3, 1, 2)),
        (Clock::Clock40MHz, ArbitrationBitRate::Rate500K, DataBitRate::Rate10M) => Some((0, 1, 0, 0, 2, 0, 2)),
        (Clock::Clock40MHz, ArbitrationBitRate::Rate250K, DataBitRate::Rate500K) => Some((1, 30, 7, 7, 31, 0, 0)),
        (Clock::Clock40MHz, ArbitrationBitRate::Rate125K, DataBitRate::Rate500K) => Some((1, 30, 7, 7, 31, 0, 0)),
        (Clock::Clock40MHz, ArbitrationBitRate::Rate250K, DataBitRate::Rate833K) => Some((1, 17, 4, 4, 18, 0, 0)),
        (Clock::Clock40MHz, ArbitrationBitRate::Rate250K, DataBitRate::Rate1M) => Some((0, 30, 7, 7, 31, 0, 2)),
        (Clock::Clock40MHz, ArbitrationBitRate::Rate250K, DataBitRate::Rate1M5) => Some((0, 18, 5, 5, 19, 0, 2)),
        (Clock::Clock40MHz, ArbitrationBitRate::Rate250K, DataBitRate::Rate2M) => Some((0, 14, 3, 3, 15, 0, 2)),
        (Clock::Clock40MHz, ArbitrationBitRate::Rate250K, DataBitRate::Rate3M) => Some((0, 8, 2, 2, 9, 0, 2)),
        (Clock::Clock40MHz, ArbitrationBitRate::Rate250K, DataBitRate::Rate4M) => Some((0, 6, 1, 1, 7, 0, 2)),
        (Clock::Clock20MHz, ArbitrationBitRate::Rate500K, DataBitRate::Rate1M) => Some((0, 14, 3, 3, 15, 0, 2)),
        (Clock::Clock20MHz, ArbitrationBitRate::Rate500K, DataBitRate::Rate2M) => Some((0, 6, 1, 1, 7, 0, 2)),
        (Clock::Clock20MHz, ArbitrationBitRate::Rate500K, DataBitRate::Rate4M) => Some((0, 2, 0, 0, 3, 0, 2)),
        (Clock::Clock20MHz, ArbitrationBitRate::Rate1000K, DataBitRate::Rate4M) => Some((0, 2, 0, 0, 3, 0, 2)),
        (Clock::Clock20MHz, ArbitrationBitRate::Rate500K, DataBitRate::Rate5M) => Some((0, 1, 0, 0, 2, 0, 2)),
        (Clock::Clock20MHz, ArbitrationBitRate::Rate250K, DataBitRate::Rate500K) => Some((0, 30, 7, 7, 31, 0, 0)),
        (Clock::Clock20MHz, ArbitrationBitRate::Rate125K, DataBitRate::Rate500K) => Some((0, 30, 7, 7, 31, 0, 0)),
        (Clock::Clock20MHz, ArbitrationBitRate::Rate250K, DataBitRate::Rate833K) => Some((0, 17, 4, 4, 18, 0, 0)),
        (Clock::Clock20MHz, ArbitrationBitRate::Rate250K, DataBitRate::Rate1M) => Some((0, 14, 3, 3, 15, 0, 2)),
        (Clock::Clock20MHz, ArbitrationBitRate::Rate250K, DataBitRate::Rate1M5) => Some((0, 8, 2, 2, 9, 0, 2)),
        (Clock::Clock20MHz, ArbitrationBitRate::Rate250K, DataBitRate::Rate2M) => Some((0, 6, 1, 1, 7, 0, 2)),
        (Clock::Clock20MHz, ArbitrationBitRate::Rate250K, DataBitRate::Rate4M) => Some((0, 2, 0, 0, 3, 0, 2)),
        _ => None,
    }
}

/// Whether the controller supports `bit_rate` on `clock`.
pub open spec fn supported(clock: Clock, bit_rate: BitRate) -> bool {
    data_timing(clock, bit_rate.arbitration, bit_rate.data) is Some
}

/// The register field values for `bit_rate` on `clock`; none where the pair
/// is not supported.
pub open spec fn resolve(clock: Clock, bit_rate: BitRate) -> Option<BitRateConfig> {
    let n = nominal_timing(clock, bit_rate.arbitration);
    match data_timing(clock, bit_rate.arbitration, bit_rate.data) {
        Some(d) => Some(
            BitRateConfig {
                arbitration_brp: n.0,
                arbitration_tseg1: n.1,
                arbitration_tseg2: n.2,
                arbitration_sjw: n.3,
                data_brp: d.0,
                data_tseg1: d.1,
                data_tseg2: d.2,
                data_sjw: d.3,
                tdc_offset: d.4,
                tdc_value: d.5,
                tdc_mode: d.6,
            },
        ),
        None => None,
    }
}

/// The nominal bit time of `c`, in oscillator periods: the prescaled time
/// quantum times the quanta of sync, TSEG1 and TSEG2 segments.
pub open spec fn nominal_bit_periods(c: BitRateConfig) -> nat {
    ((c.arbitration_brp + 1) * (c.arbitration_tseg1 + c.arbitration_tseg2 + 3)) as nat
}

/// The arbitration phase that the table gives runs at exactly the requested rate.
proof fn lemma_nominal_rate_exact(clock: Clock, arbitration: ArbitrationBitRate)
    ensures
        ({
            let n = nominal_timing(clock, arbitration);
            clock.hz() == arbitration.bits_per_second() * ((n.0 + 1) * (n.1 + n.2 + 3))
        }),
{
    let n = nominal_timing(clock, arbitration);
    match clock {
        Clock::Clock20MHz => match arbitration {
            ArbitrationBitRate::Rate125K => {
                assert(nominal_timing(clock, arbitration) == (0u8, 126u8, 31u8, 31u8));
                assert((0nat + 1) * (126nat + 31nat + 3) == 160nat) by (nonlinear_arith);
                assert(20000000nat == 125000nat * 160nat) by (nonlinear_arith);
            },
            ArbitrationBitRate::Rate250K => {
                assert(nominal_timing(clock, arbitration) == (0u8, 62u8, 15u8, 15u8));
                assert((0nat + 1) * (62nat + 15nat + 3) == 80nat) by (nonlinear_arith);
                assert(20000000nat == 250000nat * 80nat) by (nonlinear_arith);
            },
            ArbitrationBitRate::Rate500K => {
                assert(nominal_timing(clock, arbitration) == (0u8, 30u8, 7u8, 7u8));
                assert((0nat + 1) * (30nat + 7nat + 3) == 40nat) by (nonlinear_arith);
                assert(20000000nat == 500000nat * 40nat) by (nonlinear_arith);
            },
            ArbitrationBitRate::Rate1000K => {
                assert(nominal_timing(clock, arbitration) == (0u8, 14u8, 3u8, 3u8));
                assert((0nat + 1) * (14nat + 3nat + 3) == 20nat) by (nonlinear_arith);
                assert(20000000nat == 1000000nat * 20nat) by (nonlinear_arith);
            },
        },
        Clock::Clock40MHz => match arbitration {
            ArbitrationBitRate::Rate125K => {
                assert(nominal_timing(clock, arbitration) == (0u8, 254u8, 63u8, 63u8));
                assert((0nat + 1) * (254nat + 63nat + 3) == 320nat) by (nonlinear_arith);
                assert(40000000nat == 125000nat * 320nat) by (nonlinear_arith);
            },
            ArbitrationBitRate::Rate250K => {
                assert(nominal_timing(clock, arbitration) == (0u8, 126u8, 31u8, 31u8));
                assert((0nat + 1) * (126nat + 31nat + 3) == 160nat) by (nonlinear_arith);
                assert(40000000nat == 250000nat * 160nat) by (nonlinear_arith);
            },
            ArbitrationBitRate::Rate500K => {
                assert(nominal_timing(clock, arbitration) == (0u8, 62u8, 15u8, 15u8));
                assert((0nat + 1) * (62nat + 15nat + 3) == 80nat) by (nonlinear_arith);
                assert(40000000nat == 500000nat * 80nat) by (nonlinear_arith);
            },
            ArbitrationBitRate::Rate1000K => {
                assert(nominal_timing(clock, arbitration) == (0u8, 30u8, 7u8, 7u8));
                assert((0nat + 1) * (30nat + 7nat + 3) == 40nat) by (nonlinear_arith);
                assert(40000000nat == 1000000nat * 40nat) by (nonlinear_arith);
            },
        },
    }
}

impl BitRate {
    /// The register field values for this bit rate pair on `clock`, looked
    /// up in the controller's table of supported pairs; none for a pair that
    /// is not in it. The arbitration phase then runs at exactly the requested
    /// rate, SJW equals TSEG2 in both phases, the delay compensation offset
    /// sits one quantum past TSEG1, and the delay compensation mode is manual
    /// for the two slowest data rates and automatic for all others.
    pub fn get_config(&self, clock: &Clock) -> (r: Option<BitRateConfig>)
        ensures
            r == resolve(*clock, *self),
            r is Some <==> supported(*clock, *self),
            r matches Some(c) ==> {
                &&& c.fits_registers()
                &&& clock.hz() == self.arbitration.bits_per_second() * nominal_bit_periods(c)
                &&& c.arbitration_sjw == c.arbitration_tseg2
                &&& c.data_sjw == c.data_tseg2
                &&& c.tdc_offset == c.data_tseg1 + 1
                &&& c.tdc_mode == (if self.data is Rate500K || self.data is Rate833K {
                    TDC_MODE_MANUAL
                } else {
                    TDC_MODE_AUTO
                })
            },
    {
        proof {
            lemma_nominal_rate_exact(*clock, self.arbitration);
        }
        let n: (u8, u8, u8, u8) = match (clock, &self.arbitration) {
            (Clock::Clock40MHz, ArbitrationBitRate::Rate125K) => (0, 254, 63, 63),
            (Clock::Clock40MHz, ArbitrationBitRate::Rate250K) => (0, 126, 31, 31),
            (Clock::Clock40MHz, ArbitrationBitRate::Rate500K) => (0, 62, 15, 15),
            (Clock::Clock40MHz, ArbitrationBitRate::Rate1000K) => (0, 30, 7, 7),
            (Clock::Clock20MHz, ArbitrationBitRate::Rate125K) => (0, 126, 31, 31),
            (Clock::Clock20MHz, ArbitrationBitRate::Rate250K) => (0, 62, 15, 15),
            (Clock::Clock20MHz, ArbitrationBitRate::Rate500K) => (0, 30, 7, 7),
            (Clock::Clock20MHz, ArbitrationBitRate::Rate1000K) => (0, 14, 3, 3),
        };
        let d: Option<(u8, u8, u8, u8, u8, u8, u8)> = match (clock, &self.arbitration, &self.data) {
            (Clock::Clock40MHz, ArbitrationBitRate::Rate500K, DataBitRate::Rate1M) => Some((0, 30, 7, 7, 31, 0, 2)),
            (Clock::Clock40MHz, ArbitrationBitRate::Rate500K, DataBitRate::Rate2M) => Some((0, 14, 3, 3, 15, 0, 2)),
            (Clock::Clock40MHz, ArbitrationBitRate::Rate500K, DataBitRate::Rate3M) => Some((0, 8, 2, 2, 9, 0, 2)),
            (Clock::Clock40MHz, ArbitrationBitRate::Rate500K, DataBitRate::Rate4M) => Some((0, 6, 1, 1, 7, 0, 2)),
            (Clock::Clock40MHz, ArbitrationBitRate::Rate1000K, DataBitRate::Rate4M) => Some((0, 6, 1, 1, 7, 0, 2)),
            (Clock::Clock40MHz, ArbitrationBitRate::Rate500K, DataBitRate::Rate5M) => Some((0, 4, 1, 1, 5, 0, 2)),
            (Clock::Clock40MHz, ArbitrationBitRate::Rate500K, DataBitRate::Rate6M7) => Some((0, 3, 0, 0, 4, 0, 2)),
            (Clock::Clock40MHz, ArbitrationBitRate::Rate500K, DataBitRate::Rate8M) => Some((0, 2, 0, 0, 3, 1, 2)),
            (Clock::Clock40MHz, ArbitrationBitRate::Rate1000K, DataBitRate::Rate8M) => Some((0, 2, 0, 0, 3, 1, 2)),
            (Clock::Clock40MHz, ArbitrationBitRate::Rate500K, DataBitRate::Rate10M) => Some((0, 1, 0, 0, 2, 0, 2)),
            (Clock::Clock40MHz, ArbitrationBitRate::Rate250K, DataBitRate::Rate500K) => Some((1, 30, 7, 7, 31, 0, 0)),
            (Clock::Clock40MHz, ArbitrationBitRate::Rate125K, DataBitRate::Rate500K) => Some((1, 30, 7, 7, 31, 0, 0)),
            (Clock::Clock40MHz, ArbitrationBitRate::Rate250K, DataBitRate::Rate833K) => Some((1, 17, 4, 4, 18, 0, 0)),
            (Clock::Clock40MHz, ArbitrationBitRate::Rate250K, DataBitRate::Rate1M) => Some((0, 30, 7, 7, 31, 0, 2)),
            (Clock::Clock40MHz, ArbitrationBitRate::Rate250K, DataBitRate::Rate1M5) => Some((0, 18, 5, 5, 19, 0, 2)),
            (Clock::Clock40MHz, ArbitrationBitRate::Rate250K, DataBitRate::Rate2M) => Some((0, 14, 3, 3, 15, 0, 2)),
            (Clock::Clock40MHz, ArbitrationBitRate::Rate250K, DataBitRate::Rate3M) => Some((0, 8, 2, 2, 9, 0, 2)),
            (Clock::Clock40MHz, ArbitrationBitRate::Rate250K, DataBitRate::Rate4M) => Some((0, 6, 1, 1, 7, 0, 2)),
            (Clock::Clock20MHz, ArbitrationBitRate::Rate500K, DataBitRate::Rate1M) => Some((0, 14, 3, 3, 15, 0, 2)),
            (Clock::Clock20MHz, ArbitrationBitRate::Rate500K, DataBitRate::Rate2M) => Some((0, 6, 1, 1, 7, 0, 2)),
            (Clock::Clock20MHz, ArbitrationBitRate::Rate500K, DataBitRate::Rate4M) => Some((0, 2, 0, 0, 3, 0, 2)),
            (Clock::Clock20MHz, ArbitrationBitRate::Rate1000K, DataBitRate::Rate4M) => Some((0, 2, 0, 0, 3, 0, 2)),
            (Clock::Clock20MHz, ArbitrationBitRate::Rate500K, DataBitRate::Rate5M) => Some((0, 1, 0, 0, 2, 0, 2)),
            (Clock::Clock20MHz, ArbitrationBitRate::Rate250K, DataBitRate::Rate500K) => Some((0, 30, 7, 7, 31, 0, 0)),
            (Clock::Clock20MHz, ArbitrationBitRate::Rate125K, DataBitRate::Rate500K) => Some((0, 30, 7, 7, 31, 0, 0)),
            (Clock::Clock20MHz, ArbitrationBitRate::Rate250K, DataBitRate::Rate833K) => Some((0, 17, 4, 4, 18, 0, 0)),
            (Clock::Clock20MHz, ArbitrationBitRate::Rate250K, DataBitRate::Rate1M) => Some((0, 14, 3, 3, 15, 0, 2)),
            (Clock::Clock20MHz, ArbitrationBitRate::Rate250K, DataBitRate::Rate1M5) => Some((0, 8, 2, 2, 9, 0, 2)),
            (Clock::Clock20MHz, ArbitrationBitRate::Rate250K, DataBitRate::Rate2M) => Some((0, 6, 1, 1, 7, 0, 2)),
            (Clock::Clock20MHz, ArbitrationBitRate::Rate250K, DataBitRate::Rate4M) => Some((0, 2, 0, 0, 3, 0, 2)),
            _ => None,
        };
        match d {
            Some(d) => Some(
                BitRateConfig {
                    arbitration_brp: n.0,
                    arbitration_tseg1: n.1,
                    arbitration_tseg2: n.2,
                    arbitration_sjw: n.3,
                    data_brp: d.0,
                    data_tseg1: d.1,
                    data_tseg2: d.2,
                    data_sjw: d.3,
                    tdc_offset: d.4,
                    tdc_value: d.5,
                    tdc_mode: d.6,
                },
            ),
            None => None,
        }
    }
}


/// Resolution is a function of the (clock, arbitration rate, data rate)
/// triple: two resolutions of one triple agree, and they give field values
/// exactly for the supported triples and fail for all others.
pub proof fn lemma_resolution_deterministic(
    clock: Clock,
    bit_rate: BitRate,
    first: Option<BitRateConfig>,
    second: Option<BitRateConfig>,
)
    requires
        first == resolve(clock, bit_rate),
        second == resolve(clock, bit_rate),
    ensures
        first == second,
        first is Some <==> supported(clock, bit_rate),
{
}

} // verus!
