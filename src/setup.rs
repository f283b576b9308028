//! Configuration of the controller: reset and apply settings, request an
//! operation mode, configure a FIFO, configure an acceptance filter.

use vstd::prelude::*;
use crate::config::{
    resolve, supported, BitRateConfig, Config, FIFOConfig, FilterConfig, MaskConfig,
};
use crate::controller::{pending_view, answers, ControllerError, INTERRUPTS_ADDRESS};
use crate::protocol::{
    le_word, read_register_command, read_register_tx, reset_command, reset_tx, word_from_bytes,
    write_bytes_command, write_bytes_tx, write_register_byte_command, write_register_byte_tx,
    write_register_command, write_register_tx, Transaction, RAM_SIZE,
};
use crate::register_map::{
    CANControl, DataBitTimeConfig, ECCControl, FIFOControl, FilterObject, Interrupts, Mask,
    NominalBitTimeConfig, TransmitterDelayCompensation,
};
use crate::registers::{
    field, filter_control_byte, filter_control_byte_address, filter_object_address, flag,
    lemma_low_masks, lemma_with_field, mask_address, fifo_control_address,
    spec_fifo_control_address, spec_filter_control_byte_address, spec_filter_object_address,
    spec_mask_address, with_field, OperationMode, MAX_FIFO, MAX_FILTER,
};

verus! {

/// The CAN control register `word` with the protocol options of `config`
/// applied: ISO CRC, store in transmit event FIFO, transmit queue and
/// restricted retransmission.
pub open spec fn can_control_value(word: u32, config: Config) -> u32 {
    with_field(with_field(with_field(with_field(word, 5, 1, flag(config.iso_crc_enabled)), 19, 1,
        flag(config.tx_event_fifo_enabled)), 20, 1, flag(config.txq_enabled)), 16, 1,
        flag(config.restrict_retx_attempts))
}

/// The nominal bit time register for `t`.
pub open spec fn nominal_value(t: BitRateConfig) -> u32 {
    with_field(with_field(with_field(with_field(0, 24, 8, t.arbitration_brp as u32), 16, 8,
        t.arbitration_tseg1 as u32), 8, 7, t.arbitration_tseg2 as u32), 0, 7, t.arbitration_sjw as u32)
}

/// The data bit time register for `t`.
pub open spec fn data_value(t: BitRateConfig) -> u32 {
    with_field(with_field(with_field(with_field(0, 24, 8, t.data_brp as u32), 16, 5,
        t.data_tseg1 as u32), 8, 4, t.data_tseg2 as u32), 0, 4, t.data_sjw as u32)
}

/// The delay compensation register `word` with the mode, offset and value of `t`.
pub open spec fn delay_compensation_value(word: u32, t: BitRateConfig) -> u32 {
    with_field(with_field(with_field(word, 16, 2, t.tdc_mode as u32), 8, 7, t.tdc_offset as u32), 0, 6,
        t.tdc_value as u32)
}

/// The interrupt register `word` with the transmit interrupt disabled and
/// the receive and bus error interrupts enabled.
pub open spec fn interrupt_enable_value(word: u32) -> u32 {
    with_field(with_field(with_field(word, 16, 1, 0), 17, 1, 1), 29, 1, 1)
}

/// Size of each write that fills message RAM.
pub const RAM_FILL_CHUNK: u16 = 64;

/// Stages of a reset and configuration, each named by the exchange it waits on.
#[derive(Copy, Clone, Debug, PartialEq, Eq)]
pub enum ConfigureStage {
    Reset,
    ReadEcc,
    WriteEcc { value: u32 },
    FillRam { offset: u16 },
    ReadCanControl,
    WriteCanControl { value: u32 },
    WriteNominalBitTime,
    WriteDataBitTime,
    ReadDelayCompensation,
    WriteDelayCompensation { value: u32 },
    ReadInterrupts,
    WriteInterrupts { value: u32 },
    Finished,
}

/// Resets the controller, which puts it in Configuration mode, and applies
/// `config`: sets ECC, zero-fills message RAM in 64-byte writes so that its
/// ECC parity is set, applies the protocol options, writes the bit timing of
/// both phases and the delay compensation, and enables the receive and bus
/// error interrupts while disabling the transmit interrupt.
pub struct Configure {
    config: Config,
    timing: BitRateConfig,
    stage: ConfigureStage,
}

impl Configure {
    #[verifier::type_invariant]
    spec fn well_formed(self) -> bool {
        &&& self.timing.fits_registers()
        &&& self.stage matches ConfigureStage::FillRam { offset } ==> offset < RAM_SIZE && offset
            % RAM_FILL_CHUNK == 0
    }

    /// The settings to apply.
    pub closed spec fn spec_config(self) -> Config {
        self.config
    }

    /// The register values that the bit rate pair of the configuration resolved to.
    pub closed spec fn timing(self) -> BitRateConfig {
        self.timing
    }

    /// Where the configuration stands.
    pub closed spec fn stage(self) -> ConfigureStage {
        self.stage
    }

    /// The exchange that the stage waits on; none once finished.
    pub open spec fn pending_tx(self) -> Option<(Seq<u8>, nat)> {
        match self.stage() {
            ConfigureStage::Reset => Some(reset_tx()),
            ConfigureStage::ReadEcc => Some(read_register_tx(ECCControl::ADDRESS)),
            ConfigureStage::WriteEcc { value } => Some(write_register_tx(ECCControl::ADDRESS, value)),
            ConfigureStage::FillRam { offset } => Some(
                write_bytes_tx(offset, Seq::new(RAM_FILL_CHUNK as nat, |i: int| 0u8)),
            ),
            ConfigureStage::ReadCanControl => Some(read_register_tx(CANControl::ADDRESS)),
            ConfigureStage::WriteCanControl { value } => Some(write_register_tx(CANControl::ADDRESS, value)),
            ConfigureStage::WriteNominalBitTime => Some(
                write_register_tx(NominalBitTimeConfig::ADDRESS, nominal_value(self.timing())),
            ),
            ConfigureStage::WriteDataBitTime => Some(
                write_register_tx(DataBitTimeConfig::ADDRESS, data_value(self.timing())),
            ),
            ConfigureStage::ReadDelayCompensation => Some(read_register_tx(TransmitterDelayCompensation::ADDRESS)),
            ConfigureStage::WriteDelayCompensation { value } => Some(
                write_register_tx(TransmitterDelayCompensation::ADDRESS, value),
            ),
            ConfigureStage::ReadInterrupts => Some(read_register_tx(INTERRUPTS_ADDRESS)),
            ConfigureStage::WriteInterrupts { value } => Some(write_register_tx(INTERRUPTS_ADDRESS, value)),
            ConfigureStage::Finished => None,
        }
    }

    /// The stage that follows once the pending exchange has read `response`.
    pub open spec fn next_stage(self, response: Seq<u8>) -> ConfigureStage {
        let w = le_word(response);
        match self.stage() {
            ConfigureStage::Reset => ConfigureStage::ReadEcc,
            ConfigureStage::ReadEcc => ConfigureStage::WriteEcc {
                value: with_field(w, 0, 1, flag(self.spec_config().ecc_enabled)),
            },
            ConfigureStage::WriteEcc { .. } => ConfigureStage::FillRam { offset: 0 },
            ConfigureStage::FillRam { offset } => if offset + RAM_FILL_CHUNK < RAM_SIZE {
                ConfigureStage::FillRam { offset: (offset + RAM_FILL_CHUNK) as u16 }
            } else {
                ConfigureStage::ReadCanControl
            },
            ConfigureStage::ReadCanControl => ConfigureStage::WriteCanControl {
                value: can_control_value(w, self.spec_config()),
            },
            ConfigureStage::WriteCanControl { .. } => ConfigureStage::WriteNominalBitTime,
            ConfigureStage::WriteNominalBitTime => ConfigureStage::WriteDataBitTime,
            ConfigureStage::WriteDataBitTime => ConfigureStage::ReadDelayCompensation,
            ConfigureStage::ReadDelayCompensation => ConfigureStage::WriteDelayCompensation {
                value: delay_compensation_value(w, self.timing()),
            },
            ConfigureStage::WriteDelayCompensation { .. } => ConfigureStage::ReadInterrupts,
            ConfigureStage::ReadInterrupts => ConfigureStage::WriteInterrupts { value: interrupt_enable_value(w) },
            ConfigureStage::WriteInterrupts { .. } => ConfigureStage::Finished,
            ConfigureStage::Finished => ConfigureStage::Finished,
        }
    }

    /// A reset and configuration with `config`, which starts with the reset;
    /// [`ControllerError::UnsupportedBitRate`], before any exchange, where the
    /// bit rate pair is not supported on the configured clock.
    pub fn new(config: &Config) -> (r: Result<Self, ControllerError>)
        ensures
            r is Ok <==> supported(config.clock, config.bit_rate),
            r matches Err(e) ==> e == ControllerError::UnsupportedBitRate,
            r matches Ok(c) ==> {
                &&& c.spec_config() == *config
                &&& resolve(config.clock, config.bit_rate) == Some(c.timing())
                &&& c.stage() == ConfigureStage::Reset
            },
    {
        match config.bit_rate.get_config(&config.clock) {
            Some(timing) => Ok(Configure { config: *config, timing, stage: ConfigureStage::Reset }),
            None => Err(ControllerError::UnsupportedBitRate),
        }
    }

    /// The exchange to perform next; none once the configuration is over.
    pub fn pending(&self) -> (r: Option<Transaction>)
        ensures
            pending_view(r) == self.pending_tx(),
    {
        proof {
            use_type_invariant(self);
        }
        match self.stage {
            ConfigureStage::Reset => Some(reset_command()),
            ConfigureStage::ReadEcc => Some(read_register_command(ECCControl::ADDRESS)),
            ConfigureStage::WriteEcc { value } => Some(write_register_command(ECCControl::ADDRESS, value)),
            ConfigureStage::FillRam { offset } => {
                let zeros = [0u8; 64];
                assert(zeros@ =~= Seq::new(RAM_FILL_CHUNK as nat, |i: int| 0u8));
                Some(write_bytes_command(offset, zeros.as_slice()))
            },
            ConfigureStage::ReadCanControl => Some(read_register_command(CANControl::ADDRESS)),
            ConfigureStage::WriteCanControl { value } => Some(write_register_command(CANControl::ADDRESS, value)),
            ConfigureStage::WriteNominalBitTime => {
                let mut r = NominalBitTimeConfig { bits: 0 };
                r.set_brp(self.timing.arbitration_brp as u32);
                r.set_tseg1(self.timing.arbitration_tseg1 as u32);
                r.set_tseg2(self.timing.arbitration_tseg2 as u32);
                r.set_sjw(self.timing.arbitration_sjw as u32);
                Some(write_register_command(NominalBitTimeConfig::ADDRESS, r.bits))
            },
            ConfigureStage::WriteDataBitTime => {
                let mut r = DataBitTimeConfig { bits: 0 };
                r.set_brp(self.timing.data_brp as u32);
                r.set_tseg1(self.timing.data_tseg1 as u32);
                r.set_tseg2(self.timing.data_tseg2 as u32);
                r.set_sjw(self.timing.data_sjw as u32);
                Some(write_register_command(DataBitTimeConfig::ADDRESS, r.bits))
            },
            ConfigureStage::ReadDelayCompensation => {
                Some(read_register_command(TransmitterDelayCompensation::ADDRESS))
            },
            ConfigureStage::WriteDelayCompensation { value } => {
                Some(write_register_command(TransmitterDelayCompensation::ADDRESS, value))
            },
            ConfigureStage::ReadInterrupts => Some(read_register_command(INTERRUPTS_ADDRESS)),
            ConfigureStage::WriteInterrupts { value } => Some(write_register_command(INTERRUPTS_ADDRESS, value)),
            ConfigureStage::Finished => None,
        }
    }

    /// Moves on once the pending exchange has read `response`.
    pub fn advance(&mut self, response: &[u8])
        requires
            answers(old(self).pending_tx(), response@.len()),
        ensures
            final(self).spec_config() == old(self).spec_config(),
            final(self).timing() == old(self).timing(),
            final(self).stage() == old(self).next_stage(response@),
    {
        proof {
            use_type_invariant(&*self);
        }
        let next = match self.stage {
            ConfigureStage::Reset => ConfigureStage::ReadEcc,
            ConfigureStage::ReadEcc => {
                let mut r = ECCControl { bits: word_from_bytes(response) };
                r.set_eccen(self.config.ecc_enabled);
                ConfigureStage::WriteEcc { value: r.bits }
            },
            ConfigureStage::WriteEcc { .. } => ConfigureStage::FillRam { offset: 0 },
            ConfigureStage::FillRam { offset } => {
                if offset + RAM_FILL_CHUNK < RAM_SIZE {
                    assert((offset + 64) % 64 == 0);
                    ConfigureStage::FillRam { offset: offset + RAM_FILL_CHUNK }
                } else {
                    ConfigureStage::ReadCanControl
                }
            },
            ConfigureStage::ReadCanControl => {
                let mut r = CANControl { bits: word_from_bytes(response) };
                r.set_isocrcen(self.config.iso_crc_enabled);
                r.set_stef(self.config.tx_event_fifo_enabled);
                r.set_txqen(self.config.txq_enabled);
                r.set_rtxat(self.config.restrict_retx_attempts);
                ConfigureStage::WriteCanControl { value: r.bits }
            },
            ConfigureStage::WriteCanControl { .. } => ConfigureStage::WriteNominalBitTime,
            ConfigureStage::WriteNominalBitTime => ConfigureStage::WriteDataBitTime,
            ConfigureStage::WriteDataBitTime => ConfigureStage::ReadDelayCompensation,
            ConfigureStage::ReadDelayCompensation => {
                let mut r = TransmitterDelayCompensation { bits: word_from_bytes(response) };
                r.set_tdcmod(self.timing.tdc_mode as u32);
                r.set_tdco(self.timing.tdc_offset as u32);
                r.set_tdcv(self.timing.tdc_value as u32);
                ConfigureStage::WriteDelayCompensation { value: r.bits }
            },
            ConfigureStage::WriteDelayCompensation { .. } => ConfigureStage::ReadInterrupts,
            ConfigureStage::ReadInterrupts => {
                let mut r = Interrupts { bits: word_from_bytes(response) };
                r.set_txie(false);
                r.set_rxie(true);
                r.set_cerrie(true);
                ConfigureStage::WriteInterrupts { value: r.bits }
            },
            ConfigureStage::WriteInterrupts { .. } => ConfigureStage::Finished,
            ConfigureStage::Finished => ConfigureStage::Finished,
        };
        self.stage = next;
    }

    /// Whether the configuration is over.
    pub fn is_finished(&self) -> (r: bool)
        ensures
            r == (self.stage() == ConfigureStage::Finished),
    {
        match self.stage {
            ConfigureStage::Finished => true,
            _ => false,
        }
    }
}

/// Stages of a mode request, each named by the exchange it waits on.
#[derive(Copy, Clone, Debug, PartialEq, Eq)]
pub enum SetModeStage {
    ReadCanControl,
    WriteCanControl { value: u32 },
    Finished,
}

/// Requests an operation mode: reads the CAN control register and writes it
/// back with the requested mode. The controller changes mode in its own time;
/// the operation mode status field tells when it has.
pub struct SetMode {
    mode: OperationMode,
    stage: SetModeStage,
}

impl SetMode {
    /// The requested mode.
    pub closed spec fn mode(self) -> OperationMode {
        self.mode
    }

    /// Where the request stands.
    pub closed spec fn stage(self) -> SetModeStage {
        self.stage
    }

    /// The exchange that the stage waits on; none once finished.
    pub open spec fn pending_tx(self) -> Option<(Seq<u8>, nat)> {
        match self.stage() {
            SetModeStage::ReadCanControl => Some(read_register_tx(CANControl::ADDRESS)),
            SetModeStage::WriteCanControl { value } => Some(write_register_tx(CANControl::ADDRESS, value)),
            SetModeStage::Finished => None,
        }
    }

    /// The stage that follows once the pending exchange has read `response`.
    pub open spec fn next_stage(self, response: Seq<u8>) -> SetModeStage {
        match self.stage() {
            SetModeStage::ReadCanControl => SetModeStage::WriteCanControl {
                value: with_field(le_word(response), 24, 3, self.mode().spec_code()),
            },
            _ => SetModeStage::Finished,
        }
    }

    /// A request for `mode`, which starts by reading the CAN control register.
    pub fn new(mode: OperationMode) -> (r: Self)
        ensures
            r.mode() == mode,
            r.stage() == SetModeStage::ReadCanControl,
    {
        SetMode { mode, stage: SetModeStage::ReadCanControl }
    }

    /// The exchange to perform next; none once the request is written.
    pub fn pending(&self) -> (r: Option<Transaction>)
        ensures
            pending_view(r) == self.pending_tx(),
    {
        match self.stage {
            SetModeStage::ReadCanControl => Some(read_register_command(CANControl::ADDRESS)),
            SetModeStage::WriteCanControl { value } => Some(write_register_command(CANControl::ADDRESS, value)),
            SetModeStage::Finished => None,
        }
    }

    /// Moves on once the pending exchange has read `response`.
    pub fn advance(&mut self, response: &[u8])
        requires
            answers(old(self).pending_tx(), response@.len()),
        ensures
            final(self).mode() == old(self).mode(),
            final(self).stage() == old(self).next_stage(response@),
    {
        self.stage = match self.stage {
            SetModeStage::ReadCanControl => {
                let mut r = CANControl { bits: word_from_bytes(response) };
                r.set_reqop(self.mode);
                SetModeStage::WriteCanControl { value: r.bits }
            },
            _ => SetModeStage::Finished,
        };
    }
}

/// The control register value that configures a FIFO as `c` says: depth
/// stored as depth minus one, payload size class, direction, priority and
/// retransmission policy for a transmit FIFO, the not-empty interrupt for a
/// receive FIFO, and the reset bit.
pub open spec fn fifo_control_value(c: FIFOConfig) -> u32 {
    let base = with_field(with_field(0, 29, 3, c.payload_size.spec_code()), 7, 1, flag(c.transmit));
    let directed = if c.transmit {
        with_field(with_field(base, 21, 2, c.tx_attempts.spec_code()), 16, 5, c.priority as u32)
    } else {
        with_field(base, 0, 1, 1)
    };
    with_field(with_field(directed, 10, 1, 1), 24, 5, (c.size - 1) as u32)
}

/// The FIFO control register value for `config`.
pub fn fifo_control_bits(config: &FIFOConfig) -> (r: u32)
    requires
        config.valid(),
    ensures
        r == fifo_control_value(*config),
        field(r, 24, 5) == config.size - 1,
{
    let mut r = FIFOControl { bits: 0 };
    r.set_plsize(config.payload_size.code());
    r.set_txen(config.transmit);
    if config.transmit {
        r.set_txat(config.tx_attempts.code());
        r.set_txpri(config.priority as u32);
    } else {
        r.set_tfnrfnie(true);
    }
    r.set_freset(true);
    let before = r.bits;
    r.set_fsize((config.size - 1) as u32);
    proof {
        lemma_fifo_depth_field(before, (config.size - 1) as u32);
    }
    r.bits
}

/// The depth field of a FIFO control value holds the depth minus one that
/// was written there: 0 for a FIFO one message deep, 31 for one 32 deep.
pub proof fn lemma_fifo_depth_field(word: u32, stored: u32)
    requires
        stored < 32,
    ensures
        field(with_field(word, 24, 5, stored), 24, 5) == stored,
{
    lemma_low_masks();
    lemma_with_field(word, 24, 5, stored, 24, 5);
}

/// Configures FIFO `fifo` as `config` says, and resets it.
pub fn configure_fifo(fifo: u8, config: &FIFOConfig) -> (r: Transaction)
    requires
        1 <= fifo <= MAX_FIFO,
        config.valid(),
    ensures
        r@ == write_register_tx(spec_fifo_control_address(fifo), fifo_control_value(*config)),
{
    write_register_command(fifo_control_address(fifo), fifo_control_bits(config))
}

/// The filter object register for `f`: its identifier split as in a message
/// header, and whether it matches extended identifiers only.
pub open spec fn filter_object_value(f: FilterConfig) -> u32 {
    with_field(with_field(with_field(0, 30, 1, flag(f.match_only_extended)), 0, 11, f.id.sid_part()), 11,
        18, f.id.eid_part())
}

/// The mask register for `m`: its identifier bits split as in a message
/// header, and whether the identifier kind must match.
pub open spec fn mask_value(m: MaskConfig) -> u32 {
    with_field(with_field(with_field(0, 30, 1, flag(m.match_id_type)), 0, 11, m.id.sid_part()), 11, 18,
        m.id.eid_part())
}

/// Configures filter `filter`: writes its identifier pattern and its mask,
/// then enables it and points it at receive FIFO `rx_fifo` through its byte
/// of the filter control registers.
pub fn configure_filter(filter: u8, rx_fifo: u8, filter_config: &FilterConfig, mask: &MaskConfig) -> (r: (
    Transaction,
    Transaction,
    Transaction,
))
    requires
        filter <= MAX_FILTER,
        1 <= rx_fifo <= MAX_FIFO,
    ensures
        r.0@ == write_register_tx(spec_filter_object_address(filter), filter_object_value(*filter_config)),
        r.1@ == write_register_tx(spec_mask_address(filter), mask_value(*mask)),
        r.2@ == write_register_byte_tx(spec_filter_control_byte_address(filter), (0x80 + rx_fifo) as u8),
{
    let mut object = FilterObject { bits: 0 };
    object.set_exide(filter_config.match_only_extended);
    let (sid, eid) = filter_config.id.split();
    object.set_sid(sid);
    object.set_eid(eid);

    let mut mask_register = Mask { bits: 0 };
    mask_register.set_mide(mask.match_id_type);
    let (msid, meid) = mask.id.split();
    mask_register.set_msid(msid);
    mask_register.set_meid(meid);

    (
        write_register_command(filter_object_address(filter), object.bits),
        write_register_command(mask_address(filter), mask_register.bits),
        write_register_byte_command(filter_control_byte_address(filter), filter_control_byte(rx_fifo)),
    )
}

/// Fills message RAM with `fill`: one 64-byte write per chunk, from offset 0
/// to the end of RAM, in ascending order.
pub fn initialize_ram(fill: u8) -> (r: Vec<Transaction>)
    ensures
        r@.len() == RAM_SIZE / RAM_FILL_CHUNK,
        forall|k: int| 0 <= k < r@.len() ==> #[trigger] r@[k]@ == write_bytes_tx(
            (k * RAM_FILL_CHUNK) as u16,
            Seq::new(RAM_FILL_CHUNK as nat, |i: int| fill),
        ),
{
    let chunk = [fill; 64];
    assert(chunk@ =~= Seq::new(RAM_FILL_CHUNK as nat, |i: int| fill));
    let mut r: Vec<Transaction> = Vec::new();
    let mut offset: u16 = 0;
    while offset < RAM_SIZE
        invariant
            offset % RAM_FILL_CHUNK == 0,
            offset <= RAM_SIZE,
            r@.len() == offset / RAM_FILL_CHUNK,
            chunk@ == Seq::new(RAM_FILL_CHUNK as nat, |i: int| fill),
            forall|k: int| 0 <= k < r@.len() ==> #[trigger] r@[k]@ == write_bytes_tx(
                (k * RAM_FILL_CHUNK) as u16,
                Seq::new(RAM_FILL_CHUNK as nat, |i: int| fill),
            ),
        decreases RAM_SIZE - offset,
    {
        r.push(write_bytes_command(offset, chunk.as_slice()));
        offset = offset + RAM_FILL_CHUNK;
    }
    r
}

} // verus!
