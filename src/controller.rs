//! Controller core: the driver handle, and the operations that the driver
//! performs on the controller, each as a state machine. A machine names the
//! exchange it waits on ([`Transmit::pending`] and the like); the caller
//! performs it on the bus and hands what it read to `advance`, until no
//! exchange is pending and the outcome is known.

use vstd::prelude::*;
use crate::frame::{Frame, padded_len, transmit_header};
use crate::protocol::{
    lemma_le_round_trip, le_bytes, le_word, read_bytes_command, read_bytes_tx,
    read_register_command, read_register_tx, word_from_bytes, write_bytes_command, write_bytes_tx,
    write_register_command, write_register_tx, Transaction,
};
use crate::register_map::{
    FIFOControl, FIFOStatus, FIFOUserAddress, Interrupts, ReceiveInterruptStatus,
};
use crate::registers::{
    bit, field, fifo_control_address, fifo_status_address, fifo_user_address_address, get_bit,
    lemma_low_masks, lemma_with_field, spec_fifo_control_address, spec_fifo_status_address,
    spec_fifo_user_address_address, with_field, ReceiveMessageObjectHeader, MAX_FIFO,
};

verus! {

/// Conditions that the controller reports, or that keep an operation from
/// being carried out.
#[derive(Copy, Clone, Debug, PartialEq, Eq)]
pub enum ControllerError {
    /// The transmit FIFO has no room; the frame was not queued.
    TransmitFifoFull,
    /// The controller flagged a CAN bus error; the flag has been cleared.
    BusError,
    /// The bit rate pair is not supported on the configured clock.
    UnsupportedBitRate,
}

/// An error of a driver operation: one of the bus that carries the
/// transactions, or one of the controller.
#[derive(Copy, Clone, Debug, PartialEq, Eq)]
pub enum Error<E> {
    SPIError(E),
    ControllerError(ControllerError),
}

/// An MCP2517FD, MCP2518FD or MCP251863 CAN FD controller, reached through
/// the SPI device `SPI`. The driver holds no copy of any register: every
/// operation reads what it needs from the controller afresh.
pub struct MCP25xxFD<SPI> {
    spi: SPI,
}

impl<SPI> MCP25xxFD<SPI> {
    /// The SPI device that the controller sits on.
    pub closed spec fn spec_bus(self) -> SPI {
        self.spi
    }

    /// A driver for the controller on `spi`.
    pub fn new(spi: SPI) -> (r: Self)
        ensures
            r.spec_bus() == spi,
    {
        MCP25xxFD { spi }
    }

    /// The SPI device, for performing the exchanges that the operations ask for.
    pub fn bus(&mut self) -> (r: &mut SPI)
        ensures
            *r == old(self).spec_bus(),
            final(self).spec_bus() == *final(r),
    {
        &mut self.spi
    }

    /// Gives the SPI device back.
    pub fn release(self) -> (r: SPI)
        ensures
            r == self.spec_bus(),
    {
        self.spi
    }
}

/// Picks a transmit buffer on the classic controllers, which have three
/// fixed transmit buffers in place of FIFOs: the first, in the order 0, 1,
/// 2, whose transmit request is not pending. None where all three are
/// pending: the caller tries again later.
pub fn select_transmit_buffer(pending: [bool; 3]) -> (r: Option<u8>)
    ensures
        r matches Some(i) ==> i < 3 && !pending@[i as int] && forall|j: int| 0 <= j < i ==> pending@[j],
        r is None <==> (pending@[0] && pending@[1] && pending@[2]),
{
    if !pending[0] {
        Some(0)
    } else if !pending[1] {
        Some(1)
    } else if !pending[2] {
        Some(2)
    } else {
        None
    }
}

/// The exchanges that an optional transaction stands for.
pub open spec fn pending_view(t: Option<Transaction>) -> Option<(Seq<u8>, nat)> {
    match t {
        Some(t) => Some(t@),
        None => None,
    }
}

/// Whether `len` bytes are what an exchange pending as `pending` reads.
pub open spec fn answers(pending: Option<(Seq<u8>, nat)>, len: nat) -> bool {
    match pending {
        Some(t) => len == t.1,
        None => true,
    }
}

/// The RAM offset that a FIFO user address register value stands for.
pub open spec fn user_offset(word: u32) -> u16 {
    (word % 0x10000) as u16
}

/// The RAM offset of the payload of a message object at `offset`: past its
/// eight header bytes.
pub open spec fn payload_offset(offset: u16) -> u16 {
    ((offset + 8) % 0x10000) as u16
}

/// The RAM offset that a FIFO user address register value stands for.
fn user_offset_of(word: u32) -> (r: u16)
    ensures
        r == user_offset(word),
{
    assert(word & 0xFFFF == word % 0x10000) by (bit_vector);
    (word & 0xFFFF) as u16
}

/// The RAM offset of the payload of a message object at `offset`.
fn payload_offset_of(offset: u16) -> (r: u16)
    ensures
        r == payload_offset(offset),
{
    offset.wrapping_add(8)
}

/// Stages of a transmission, each named by the exchange it waits on.
#[derive(Copy, Clone, Debug, PartialEq, Eq)]
pub enum TransmitStage {
    CheckStatus,
    ReadAddress,
    WriteHeader { offset: u16 },
    WritePayload { offset: u16 },
    ReadControl,
    WriteControl { value: u32 },
    Finished(Result<(), ControllerError>),
}

/// Queues a frame in a transmit FIFO: reads the FIFO status and stops with
/// [`ControllerError::TransmitFifoFull`] where the FIFO is full; else reads
/// the FIFO's RAM address, writes the message header and then the payload
/// there, and sets the increment and request-to-send bits of the FIFO
/// control register in one write.
pub struct Transmit {
    fifo: u8,
    frame: Frame,
    stage: TransmitStage,
}

impl Transmit {
    #[verifier::type_invariant]
    spec fn fifo_in_range(self) -> bool {
        1 <= self.fifo <= MAX_FIFO
    }

    /// The FIFO that the frame goes through.
    pub closed spec fn fifo_index(self) -> u8 {
        self.fifo
    }

    /// The frame to transmit.
    pub closed spec fn spec_frame(self) -> Frame {
        self.frame
    }

    /// Where the transmission stands.
    pub closed spec fn stage(self) -> TransmitStage {
        self.stage
    }

    /// The header bytes of the frame.
    pub open spec fn header_bytes(self) -> Seq<u8> {
        let f = self.spec_frame();
        transmit_header(f.spec_id(), f.spec_dlc(), f.spec_sequence_number()).spec_bytes()
    }

    /// The payload bytes, rounded up to whole words.
    pub open spec fn payload_bytes(self) -> Seq<u8> {
        let f = self.spec_frame();
        f.spec_buffer().subrange(0, padded_len(f.spec_dlc().spec_bytes()) as int)
    }

    /// The exchange that the stage waits on; none once finished.
    pub open spec fn pending_tx(self) -> Option<(Seq<u8>, nat)> {
        let fifo = self.fifo_index();
        match self.stage() {
            TransmitStage::CheckStatus => Some(read_register_tx(spec_fifo_status_address(fifo))),
            TransmitStage::ReadAddress => Some(read_register_tx(spec_fifo_user_address_address(fifo))),
            TransmitStage::WriteHeader { offset } => Some(write_bytes_tx(offset, self.header_bytes())),
            TransmitStage::WritePayload { offset } => Some(
                write_bytes_tx(payload_offset(offset), self.payload_bytes()),
            ),
            TransmitStage::ReadControl => Some(read_register_tx(spec_fifo_control_address(fifo))),
            TransmitStage::WriteControl { value } => Some(
                write_register_tx(spec_fifo_control_address(fifo), value),
            ),
            TransmitStage::Finished(_) => None,
        }
    }

    /// The stage that follows once the pending exchange has read `response`.
    pub open spec fn next_stage(self, response: Seq<u8>) -> TransmitStage {
        match self.stage() {
            TransmitStage::CheckStatus => if bit(le_word(response), 0) {
                TransmitStage::ReadAddress
            } else {
                TransmitStage::Finished(Err(ControllerError::TransmitFifoFull))
            },
            TransmitStage::ReadAddress => TransmitStage::WriteHeader { offset: user_offset(le_word(response)) },
            TransmitStage::WriteHeader { offset } => TransmitStage::WritePayload { offset },
            TransmitStage::WritePayload { .. } => TransmitStage::ReadControl,
            TransmitStage::ReadControl => TransmitStage::WriteControl {
                value: with_field(with_field(le_word(response), 8, 1, 1), 9, 1, 1),
            },
            TransmitStage::WriteControl { .. } => TransmitStage::Finished(Ok(())),
            TransmitStage::Finished(outcome) => TransmitStage::Finished(outcome),
        }
    }

    /// A transmission of `frame` through FIFO `fifo`, which starts by reading
    /// the FIFO's status.
    pub fn new(fifo: u8, frame: Frame) -> (r: Self)
        requires
            1 <= fifo <= MAX_FIFO,
        ensures
            r.fifo_index() == fifo,
            r.spec_frame() == frame,
            r.stage() == TransmitStage::CheckStatus,
    {
        Transmit { fifo, frame, stage: TransmitStage::CheckStatus }
    }

    /// The exchange to perform next; none once the transmission is over.
    pub fn pending(&self) -> (r: Option<Transaction>)
        ensures
            pending_view(r) == self.pending_tx(),
    {
        proof {
            use_type_invariant(self);
        }
        match self.stage {
            TransmitStage::CheckStatus => Some(read_register_command(fifo_status_address(self.fifo))),
            TransmitStage::ReadAddress => Some(read_register_command(fifo_user_address_address(self.fifo))),
            TransmitStage::WriteHeader { offset } => {
                let (header, _) = self.frame.as_components();
                let bytes = header.into_bytes();
                Some(write_bytes_command(offset, bytes.as_slice()))
            },
            TransmitStage::WritePayload { offset } => {
                Some(write_bytes_command(payload_offset_of(offset), self.frame.padded_data()))
            },
            TransmitStage::ReadControl => Some(read_register_command(fifo_control_address(self.fifo))),
            TransmitStage::WriteControl { value } => {
                Some(write_register_command(fifo_control_address(self.fifo), value))
            },
            TransmitStage::Finished(_) => None,
        }
    }

    /// Moves on once the pending exchange has read `response`.
    pub fn advance(&mut self, response: &[u8])
        requires
            answers(old(self).pending_tx(), response@.len()),
        ensures
            final(self).fifo_index() == old(self).fifo_index(),
            final(self).spec_frame() == old(self).spec_frame(),
            final(self).stage() == old(self).next_stage(response@),
    {
        proof {
            use_type_invariant(&*self);
        }
        self.stage = match self.stage {
            TransmitStage::CheckStatus => {
                let status = FIFOStatus { bits: word_from_bytes(response) };
                if status.tfnrfnif() {
                    TransmitStage::ReadAddress
                } else {
                    TransmitStage::Finished(Err(ControllerError::TransmitFifoFull))
                }
            },
            TransmitStage::ReadAddress => {
                let address = FIFOUserAddress { bits: word_from_bytes(response) };
                TransmitStage::WriteHeader { offset: user_offset_of(address.fifoua()) }
            },
            TransmitStage::WriteHeader { offset } => TransmitStage::WritePayload { offset },
            TransmitStage::WritePayload { .. } => TransmitStage::ReadControl,
            TransmitStage::ReadControl => {
                let mut control = FIFOControl { bits: word_from_bytes(response) };
                control.set_uinc(true);
                control.set_txreq(true);
                TransmitStage::WriteControl { value: control.bits }
            },
            TransmitStage::WriteControl { .. } => TransmitStage::Finished(Ok(())),
            TransmitStage::Finished(outcome) => TransmitStage::Finished(outcome),
        };
    }

    /// The outcome, once the transmission is over.
    pub fn outcome(&self) -> (r: Option<Result<(), ControllerError>>)
        ensures
            r == (match self.stage() {
                TransmitStage::Finished(outcome) => Some(outcome),
                _ => None,
            }),
    {
        match self.stage {
            TransmitStage::Finished(outcome) => Some(outcome),
            _ => None,
        }
    }
}

/// Whether `restriction` lets the receive scan look at FIFO `fifo`.
pub open spec fn admits(restriction: Option<u8>, fifo: u8) -> bool {
    match restriction {
        Some(only) => only == fifo,
        None => true,
    }
}

/// Whether `r` is what the receive scan finds in the receive interrupt
/// bitmap `bitmap`: the lowest FIFO index from 1 to 31 that `restriction`
/// admits and whose bit is set, or none where there is no such index.
pub open spec fn scan_finds(bitmap: u32, restriction: Option<u8>, r: Option<u8>) -> bool {
    match r {
        Some(i) => {
            &&& 1 <= i <= MAX_FIFO
            &&& admits(restriction, i)
            &&& bit(bitmap, i as u32)
            &&& forall|j: u8| 1 <= j < i && admits(restriction, j) ==> !bit(bitmap, j as u32)
        },
        None => forall|j: u8| 1 <= j <= MAX_FIFO && admits(restriction, j) ==> !bit(bitmap, j as u32),
    }
}

/// Scans the receive interrupt bitmap in ascending FIFO order, from 1 to 31,
/// for the first FIFO that `restriction` admits and that has a receive
/// interrupt pending.
pub fn first_pending_fifo(bitmap: u32, restriction: Option<u8>) -> (r: Option<u8>)
    ensures
        scan_finds(bitmap, restriction, r),
{
    let mut i: u8 = 1;
    while i <= MAX_FIFO
        invariant
            1 <= i <= MAX_FIFO + 1,
            forall|j: u8| 1 <= j < i && admits(restriction, j) ==> !bit(bitmap, j as u32),
        decreases MAX_FIFO + 1 - i,
    {
        let admitted = match restriction {
            Some(only) => only == i,
            None => true,
        };
        if admitted && get_bit(bitmap, i as u32) {
            return Some(i);
        }
        i = i + 1;
    }
    None
}

/// Address of the interrupt register.
pub const INTERRUPTS_ADDRESS: u16 = 0x01C;

/// Address of the receive interrupt status register.
pub const RECEIVE_INTERRUPT_STATUS_ADDRESS: u16 = 0x020;

/// Bit of the CAN bus error flag in the interrupt register.
pub const CERRIF_BIT: u32 = 13;

/// Bit of the receive FIFO flag in the interrupt register.
pub const RXIF_BIT: u32 = 1;

/// Stages of a receive, each named by the exchange it waits on.
#[derive(Copy, Clone, Debug)]
pub enum ReceiveStage {
    ReadInterrupts,
    ClearBusError { value: u32 },
    ReadReceiveStatus,
    ReadAddress { fifo: u8 },
    ReadHeader { fifo: u8, offset: u16 },
    ReadPayload { fifo: u8, offset: u16, header: ReceiveMessageObjectHeader },
    ReadControl { fifo: u8, frame: Frame },
    WriteControl { fifo: u8, frame: Frame, value: u32 },
    Finished(Result<Option<(u8, Frame)>, ControllerError>),
}

/// Whether every FIFO index that `stage` names is in range.
pub open spec fn receive_stage_ok(stage: ReceiveStage) -> bool {
    match stage {
        ReceiveStage::ReadAddress { fifo } => 1 <= fifo <= MAX_FIFO,
        ReceiveStage::ReadHeader { fifo, .. } => 1 <= fifo <= MAX_FIFO,
        ReceiveStage::ReadPayload { fifo, .. } => 1 <= fifo <= MAX_FIFO,
        ReceiveStage::ReadControl { fifo, .. } => 1 <= fifo <= MAX_FIFO,
        ReceiveStage::WriteControl { fifo, .. } => 1 <= fifo <= MAX_FIFO,
        _ => true,
    }
}

/// Takes one message, if any is waiting, without blocking: reads the
/// interrupt register; a CAN bus error comes first, and is cleared by
/// writing the register back with its flag clear, then reported as
/// [`ControllerError::BusError`]. Else, where the receive flag is set, reads
/// the receive interrupt bitmap and takes the first pending FIFO in
/// ascending order (see [`first_pending_fifo`]): reads its RAM address, the
/// message header and then the payload there, decodes the frame, and sets
/// the FIFO's increment bit. Where nothing is pending the outcome is none.
pub struct Receive {
    restriction: Option<u8>,
    stage: ReceiveStage,
}

impl Receive {
    #[verifier::type_invariant]
    spec fn stage_in_range(self) -> bool {
        receive_stage_ok(self.stage)
    }

    /// The one FIFO to look at, if any.
    pub closed spec fn restriction(self) -> Option<u8> {
        self.restriction
    }

    /// Where the receive stands.
    pub closed spec fn stage(self) -> ReceiveStage {
        self.stage
    }

    /// The exchange that the stage waits on; none once finished.
    pub open spec fn pending_tx(self) -> Option<(Seq<u8>, nat)> {
        match self.stage() {
            ReceiveStage::ReadInterrupts => Some(read_register_tx(INTERRUPTS_ADDRESS)),
            ReceiveStage::ClearBusError { value } => Some(write_register_tx(INTERRUPTS_ADDRESS, value)),
            ReceiveStage::ReadReceiveStatus => Some(read_register_tx(RECEIVE_INTERRUPT_STATUS_ADDRESS)),
            ReceiveStage::ReadAddress { fifo } => Some(read_register_tx(spec_fifo_user_address_address(fifo))),
            ReceiveStage::ReadHeader { offset, .. } => Some(read_bytes_tx(offset, 8)),
            ReceiveStage::ReadPayload { offset, .. } => Some(read_bytes_tx(payload_offset(offset), 64)),
            ReceiveStage::ReadControl { fifo, .. } => Some(read_register_tx(spec_fifo_control_address(fifo))),
            ReceiveStage::WriteControl { fifo, value, .. } => Some(
                write_register_tx(spec_fifo_control_address(fifo), value),
            ),
            ReceiveStage::Finished(_) => None,
        }
    }

    /// Whether `next` is a stage that follows once the pending exchange has
    /// read `response`. Only the decoding of a payload leaves a choice, and
    /// [`Frame::decodes`] pins that frame down.
    pub open spec fn steps_to(self, response: Seq<u8>, next: ReceiveStage) -> bool {
        let w = le_word(response);
        match self.stage() {
            ReceiveStage::ReadInterrupts => if bit(w, CERRIF_BIT) {
                next == ReceiveStage::ClearBusError { value: with_field(w, CERRIF_BIT, 1, 0) }
            } else if bit(w, RXIF_BIT) {
                next == ReceiveStage::ReadReceiveStatus
            } else {
                next == ReceiveStage::Finished(Ok(None))
            },
            ReceiveStage::ClearBusError { .. } => next == ReceiveStage::Finished(Err(ControllerError::BusError)),
            ReceiveStage::ReadReceiveStatus => exists|found: Option<u8>| {
                &&& scan_finds(w, self.restriction(), found)
                &&& next == match found {
                    Some(fifo) => ReceiveStage::ReadAddress { fifo },
                    None => ReceiveStage::Finished(Ok(None)),
                }
            },
            ReceiveStage::ReadAddress { fifo } => next == ReceiveStage::ReadHeader { fifo, offset: user_offset(w) },
            ReceiveStage::ReadHeader { fifo, offset } => next == ReceiveStage::ReadPayload {
                fifo,
                offset,
                header: ReceiveMessageObjectHeader::spec_from_bytes(response),
            },
            ReceiveStage::ReadPayload { fifo, header, .. } => match next {
                ReceiveStage::ReadControl { fifo: next_fifo, frame } => next_fifo == fifo && frame.decodes(header, response),
                _ => false,
            },
            ReceiveStage::ReadControl { fifo, frame } => next == ReceiveStage::WriteControl {
                fifo,
                frame,
                value: with_field(w, 8, 1, 1),
            },
            ReceiveStage::WriteControl { fifo, frame, .. } => next == ReceiveStage::Finished(Ok(Some((fifo, frame)))),
            ReceiveStage::Finished(outcome) => next == ReceiveStage::Finished(outcome),
        }
    }

    /// A receive that looks at FIFO `only` alone where `restriction` is
    /// `Some(only)`, and at every FIFO otherwise; it starts by reading the
    /// interrupt register.
    pub fn new(restriction: Option<u8>) -> (r: Self)
        ensures
            r.restriction() == restriction,
            r.stage() == ReceiveStage::ReadInterrupts,
    {
        Receive { restriction, stage: ReceiveStage::ReadInterrupts }
    }

    /// The exchange to perform next; none once the receive is over.
    pub fn pending(&self) -> (r: Option<Transaction>)
        ensures
            pending_view(r) == self.pending_tx(),
    {
        proof {
            use_type_invariant(self);
        }
        match self.stage {
            ReceiveStage::ReadInterrupts => Some(read_register_command(INTERRUPTS_ADDRESS)),
            ReceiveStage::ClearBusError { value } => Some(write_register_command(INTERRUPTS_ADDRESS, value)),
            ReceiveStage::ReadReceiveStatus => Some(read_register_command(RECEIVE_INTERRUPT_STATUS_ADDRESS)),
            ReceiveStage::ReadAddress { fifo } => Some(read_register_command(fifo_user_address_address(fifo))),
            ReceiveStage::ReadHeader { offset, .. } => Some(read_bytes_command(offset, 8)),
            ReceiveStage::ReadPayload { offset, .. } => Some(read_bytes_command(payload_offset_of(offset), 64)),
            ReceiveStage::ReadControl { fifo, .. } => Some(read_register_command(fifo_control_address(fifo))),
            ReceiveStage::WriteControl { fifo, value, .. } => {
                Some(write_register_command(fifo_control_address(fifo), value))
            },
            ReceiveStage::Finished(_) => None,
        }
    }

    /// Moves on once the pending exchange has read `response`.
    pub fn advance(&mut self, response: &[u8])
        requires
            answers(old(self).pending_tx(), response@.len()),
        ensures
            final(self).restriction() == old(self).restriction(),
            old(self).steps_to(response@, final(self).stage()),
    {
        proof {
            use_type_invariant(&*self);
        }
        let next = match self.stage {
            ReceiveStage::ReadInterrupts => {
                let interrupts = Interrupts { bits: word_from_bytes(response) };
                if interrupts.cerrif() {
                    let mut cleared = interrupts;
                    cleared.set_cerrif(false);
                    ReceiveStage::ClearBusError { value: cleared.bits }
                } else if interrupts.rxif() {
                    ReceiveStage::ReadReceiveStatus
                } else {
                    ReceiveStage::Finished(Ok(None))
                }
            },
            ReceiveStage::ClearBusError { .. } => ReceiveStage::Finished(Err(ControllerError::BusError)),
            ReceiveStage::ReadReceiveStatus => {
                let status = ReceiveInterruptStatus { bits: word_from_bytes(response) };
                let found = first_pending_fifo(status.bits, self.restriction);
                match found {
                    Some(fifo) => ReceiveStage::ReadAddress { fifo },
                    None => ReceiveStage::Finished(Ok(None)),
                }
            },
            ReceiveStage::ReadAddress { fifo } => {
                let address = FIFOUserAddress { bits: word_from_bytes(response) };
                ReceiveStage::ReadHeader { fifo, offset: user_offset_of(address.fifoua()) }
            },
            ReceiveStage::ReadHeader { fifo, offset } => ReceiveStage::ReadPayload {
                fifo,
                offset,
                header: ReceiveMessageObjectHeader::from_bytes(response),
            },
            ReceiveStage::ReadPayload { fifo, header, .. } => {
                let mut data = [0u8; 64];
                let mut i: usize = 0;
                while i < 64
                    invariant
                        response@.len() == 64,
                        i <= 64,
                        forall|j: int| 0 <= j < i ==> data@[j] == response@[j],
                    decreases 64 - i,
                {
                    data[i] = response[i];
                    i = i + 1;
                }
                assert(data@ =~= response@);
                ReceiveStage::ReadControl { fifo, frame: Frame::from_rx_message(header, data) }
            },
            ReceiveStage::ReadControl { fifo, frame } => {
                let mut control = FIFOControl { bits: word_from_bytes(response) };
                control.set_uinc(true);
                ReceiveStage::WriteControl { fifo, frame, value: control.bits }
            },
            ReceiveStage::WriteControl { fifo, frame, .. } => ReceiveStage::Finished(Ok(Some((fifo, frame)))),
            ReceiveStage::Finished(outcome) => ReceiveStage::Finished(outcome),
        };
        self.stage = next;
    }

    /// The outcome, once the receive is over: the FIFO index and the frame
    /// taken from it, or none where nothing was pending.
    pub fn outcome(&self) -> (r: Option<Result<Option<(u8, Frame)>, ControllerError>>)
        ensures
            r == (match self.stage() {
                ReceiveStage::Finished(outcome) => Some(outcome),
                _ => None,
            }),
    {
        match self.stage {
            ReceiveStage::Finished(outcome) => Some(outcome),
            _ => None,
        }
    }
}

/// A transmission that finds its FIFO full finishes right there with
/// [`ControllerError::TransmitFifoFull`]: it then has no exchange left to
/// perform, and stays finished, so it writes nothing to message RAM. Before
/// the status check the only exchange it has asked for is the status read.
pub proof fn lemma_full_fifo_writes_nothing(t: Transmit, status: Seq<u8>, later: Transmit, response: Seq<u8>)
    requires
        t.stage() == TransmitStage::CheckStatus,
        !bit(le_word(status), 0),
        later.stage() == t.next_stage(status),
    ensures
        t.pending_tx() == Some(read_register_tx(spec_fifo_status_address(t.fifo_index()))),
        later.stage() == TransmitStage::Finished(Err(ControllerError::TransmitFifoFull)),
        later.pending_tx() is None,
        later.next_stage(response) == later.stage(),
{
}

/// The scan finds one result for a bitmap and a restriction, so a receive
/// moves on from the bitmap read in one way only.
pub proof fn lemma_scan_unique(bitmap: u32, restriction: Option<u8>, a: Option<u8>, b: Option<u8>)
    requires
        scan_finds(bitmap, restriction, a),
        scan_finds(bitmap, restriction, b),
    ensures
        a == b,
{
    match (a, b) {
        (Some(i), Some(j)) => {
            if i < j {
                assert(!bit(bitmap, i as u32));
            } else if j < i {
                assert(!bit(bitmap, j as u32));
            }
        },
        (Some(i), None) => {
            assert(!bit(bitmap, i as u32));
        },
        (None, Some(j)) => {
            assert(!bit(bitmap, j as u32));
        },
        (None, None) => {},
    }
}

/// With only bit 5 of the receive interrupt bitmap set, or more generally
/// with bit 5 set and bits 1 to 4 clear, the unrestricted scan finds FIFO 5,
/// whatever the bits above it and bit 0 hold.
pub proof fn lemma_scan_finds_fifo_five(bitmap: u32, found: Option<u8>)
    requires
        bit(bitmap, 5),
        forall|j: u32| 1 <= j < 5 ==> !bit(bitmap, j),
        scan_finds(bitmap, None, found),
    ensures
        found == Some(5u8),
{
    match found {
        Some(i) => {
            if i < 5 {
                assert(!bit(bitmap, i as u32));
            } else if i > 5 {
                assert(admits(None, 5u8));
            }
        },
        None => {
            assert(admits(None, 5u8));
        },
    }
}

/// The bitmap with bit 5 alone set has bit 5 set and bits 1 to 4 clear.
pub proof fn lemma_only_bit_five()
    ensures
        bit(0x20, 5),
        forall|j: u32| 1 <= j < 5 ==> !bit(0x20, j),
{
    assert(bit(0x20, 5)) by (bit_vector);
    assert forall|j: u32| 1 <= j < 5 implies !bit(0x20, j) by {
        assert(1 <= j < 5 ==> ((0x20u32 >> j) & ((1u64 << 1u32) - 1) as u32) != 1) by (bit_vector);
    }
}

/// A receive that reads the bus error flag set clears it in the same
/// operation: it writes the interrupt register back with that flag clear
/// and every other flag and enable bit as read, and then reports
/// [`ControllerError::BusError`]. A receive that next reads the value written
/// does not report the error again.
pub proof fn lemma_bus_error_cleared(
    r: Receive,
    interrupts: Seq<u8>,
    next: ReceiveStage,
    again: Receive,
    next_again: ReceiveStage,
    lo: u32,
    width: u32,
)
    requires
        r.stage() == ReceiveStage::ReadInterrupts,
        bit(le_word(interrupts), CERRIF_BIT),
        r.steps_to(interrupts, next),
        next matches ReceiveStage::ClearBusError { value } && again.steps_to(le_bytes(value), next_again),
        again.stage() == ReceiveStage::ReadInterrupts,
        1 <= width,
        lo + width <= CERRIF_BIT || CERRIF_BIT + 1 <= lo,
        lo + width <= 32,
    ensures
        next matches ReceiveStage::ClearBusError { value } && {
            &&& !bit(value, CERRIF_BIT)
            &&& field(value, lo, width) == field(le_word(interrupts), lo, width)
        },
        forall|after: Receive, response: Seq<u8>, last: ReceiveStage|
            after.stage() == next && #[trigger] after.steps_to(response, last) ==> last
                == ReceiveStage::Finished(Err(ControllerError::BusError)),
        !(next_again is ClearBusError),
{
    let w = le_word(interrupts);
    let value = with_field(w, CERRIF_BIT, 1, 0);
    lemma_low_masks();
    lemma_with_field(w, CERRIF_BIT, 1, 0, lo, width);
    lemma_le_round_trip(value);
}

} // verus!
