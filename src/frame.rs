//! CAN identifiers, frames, and the codec between a frame and the message
//! object header that stands before its payload in message RAM.

use vstd::prelude::*;
use vstd::slice::slice_subrange;
use crate::protocol::{lemma_le_round_trip, le_bytes, le_word};
use crate::registers::{
    bit, field, flag, lemma_low_masks, set_bit, set_field, with_field, lemma_code_order,
    lemma_with_field, DataLengthCode, ReceiveMessageObjectHeader, TransmitMessageObjectHeader,
};

verus! {

/// Largest standard (11-bit) identifier.
pub const MAX_STANDARD_ID: u16 = 0x7FF;

/// Largest extended (29-bit) identifier.
pub const MAX_EXTENDED_ID: u32 = 0x1FFF_FFFF;

/// Standard 11-bit CAN identifier (`0..=0x7FF`).
#[derive(Copy, Clone, Debug, PartialEq, Eq)]
pub struct StandardId {
    raw: u16,
}

impl StandardId {
    #[verifier::type_invariant]
    spec fn in_range(self) -> bool {
        self.raw <= MAX_STANDARD_ID
    }

    /// The identifier as an integer.
    pub closed spec fn spec_raw(self) -> u16 {
        self.raw
    }

    /// The identifier `raw`; none where `raw` is over 0x7FF.
    pub fn new(raw: u16) -> (r: Option<Self>)
        ensures
            r is Some <==> raw <= MAX_STANDARD_ID,
            r matches Some(id) ==> id.spec_raw() == raw,
    {
        if raw <= MAX_STANDARD_ID {
            Some(StandardId { raw })
        } else {
            None
        }
    }

    /// The identifier as an integer.
    pub fn as_raw(&self) -> (r: u16)
        ensures
            r == self.spec_raw(),
            r <= MAX_STANDARD_ID,
    {
        proof {
            use_type_invariant(self);
        }
        self.raw
    }
}

/// Extended 29-bit CAN identifier (`0..=0x1FFF_FFFF`).
#[derive(Copy, Clone, Debug, PartialEq, Eq)]
pub struct ExtendedId {
    raw: u32,
}

impl ExtendedId {
    #[verifier::type_invariant]
    spec fn in_range(self) -> bool {
        self.raw <= MAX_EXTENDED_ID
    }

    /// The identifier as an integer.
    pub closed spec fn spec_raw(self) -> u32 {
        self.raw
    }

    /// The identifier `raw`; none where `raw` is over 0x1FFF_FFFF.
    pub fn new(raw: u32) -> (r: Option<Self>)
        ensures
            r is Some <==> raw <= MAX_EXTENDED_ID,
            r matches Some(id) ==> id.spec_raw() == raw,
    {
        if raw <= MAX_EXTENDED_ID {
            Some(ExtendedId { raw })
        } else {
            None
        }
    }

    /// The identifier as an integer.
    pub fn as_raw(&self) -> (r: u32)
        ensures
            r == self.spec_raw(),
            r <= MAX_EXTENDED_ID,
    {
        proof {
            use_type_invariant(self);
        }
        self.raw
    }
}

/// A CAN identifier, standard or extended.
#[derive(Copy, Clone, Debug, PartialEq, Eq)]
pub enum Id {
    Standard(StandardId),
    Extended(ExtendedId),
}

impl Id {
    /// The identifier as an integer.
    pub open spec fn spec_raw(self) -> u32 {
        match self {
            Id::Standard(id) => id.spec_raw() as u32,
            Id::Extended(id) => id.spec_raw(),
        }
    }

    /// Whether the identifier is in the range of its kind; every value of
    /// the type is.
    pub open spec fn in_range(self) -> bool {
        match self {
            Id::Standard(id) => id.spec_raw() <= MAX_STANDARD_ID,
            Id::Extended(id) => id.spec_raw() <= MAX_EXTENDED_ID,
        }
    }

    /// The 11 bits that go in the standard identifier field: the whole of a
    /// standard identifier, the low 11 bits of an extended one.
    pub open spec fn sid_part(self) -> u32 {
        match self {
            Id::Standard(id) => id.spec_raw() as u32,
            Id::Extended(id) => id.spec_raw() & 0x7FF,
        }
    }

    /// The 18 bits that go in the extended identifier field: none for a
    /// standard identifier, the high 18 bits of an extended one.
    pub open spec fn eid_part(self) -> u32 {
        match self {
            Id::Standard(_) => 0,
            Id::Extended(id) => id.spec_raw() >> 11,
        }
    }

    /// Splits the identifier into its standard and extended identifier fields.
    pub fn split(&self) -> (r: (u32, u32))
        ensures
            r.0 == self.sid_part(),
            r.1 == self.eid_part(),
            r.0 < 0x800,
            r.1 < 0x40000,
    {
        match self {
            Id::Standard(id) => (id.as_raw() as u32, 0),
            Id::Extended(id) => {
                let raw = id.as_raw();
                assert(raw <= 0x1FFF_FFFF ==> (raw & 0x7FF) < 0x800 && (raw >> 11) < 0x40000)
                    by (bit_vector);
                (raw & 0x7FF, raw >> 11)
            },
        }
    }
}

/// Splitting an extended identifier gives its low 11 and its high 18 bits,
/// and joining them back as `(high << 11) | low` gives the identifier again.
pub proof fn lemma_extended_split(raw: u32)
    requires
        raw <= MAX_EXTENDED_ID,
    ensures
        raw & 0x7FF < 0x800,
        raw >> 11 < 0x40000,
        ((raw >> 11) << 11) | (raw & 0x7FF) == raw,
{
    assert(raw <= 0x1FFF_FFFF ==> (raw & 0x7FF) < 0x800 && (raw >> 11) < 0x40000
        && ((raw >> 11) << 11) | (raw & 0x7FF) == raw) by (bit_vector);
}

/// Largest sequence number: the field in the transmit header is 23 bits wide.
pub const MAX_SEQUENCE_NUMBER: u32 = 0x7F_FFFF;

/// A CAN or CAN FD frame: identifier, data length code, a 64-byte payload
/// buffer of which the first `bytes(dlc)` are meaningful, and the sequence
/// number that a transmission carries into the transmit event FIFO.
#[derive(Copy, Clone, Debug)]
pub struct Frame {
    id: Id,
    dlc: DataLengthCode,
    data: [u8; 64],
    sequence_number: u32,
}

impl Frame {
    #[verifier::type_invariant]
    spec fn sequence_fits(self) -> bool {
        self.sequence_number <= MAX_SEQUENCE_NUMBER
    }

    /// The identifier.
    pub closed spec fn spec_id(self) -> Id {
        self.id
    }

    /// The data length code.
    pub closed spec fn spec_dlc(self) -> DataLengthCode {
        self.dlc
    }

    /// The whole 64-byte payload buffer.
    pub closed spec fn spec_buffer(self) -> Seq<u8> {
        self.data@
    }

    /// The sequence number.
    pub closed spec fn spec_sequence_number(self) -> u32 {
        self.sequence_number
    }

    /// Whether this is the frame that a receive message object with header
    /// `header` and payload buffer `data` holds.
    pub open spec fn decodes(self, header: ReceiveMessageObjectHeader, data: Seq<u8>) -> bool {
        &&& self.spec_id() == received_id(header.identifier)
        &&& self.spec_dlc().spec_code() == field(header.control, 0, 4)
        &&& self.spec_buffer() == data
        &&& self.spec_sequence_number() == 0
    }

    /// The meaningful payload bytes: the first `bytes(dlc)` of the buffer.
    pub open spec fn spec_data(self) -> Seq<u8> {
        self.spec_buffer().subrange(0, self.spec_dlc().spec_bytes() as int)
    }

    /// A frame with identifier `id` and payload `data_slice`, whose DLC is the
    /// smallest that holds it; none where the payload is over 64 bytes. The
    /// buffer past the payload is zero and the sequence number is 0.
    pub fn new(id: Id, data_slice: &[u8]) -> (r: Option<Self>)
        ensures
            r is Some <==> data_slice@.len() <= 64,
            r matches Some(f) ==> {
                &&& f.spec_id() == id
                &&& f.spec_dlc().is_best_fit(data_slice@.len())
                &&& f.spec_buffer().subrange(0, data_slice@.len() as int) == data_slice@
                &&& forall|i: int| data_slice@.len() <= i < 64 ==> f.spec_buffer()[i] == 0
                &&& f.spec_sequence_number() == 0
            },
    {
        let dlc = match DataLengthCode::best_fit(data_slice.len()) {
            Some(d) => d,
            None => return None,
        };
        let mut data = [0u8; 64];
        let mut i: usize = 0;
        while i < data_slice.len()
            invariant
                data_slice@.len() <= 64,
                i <= data_slice@.len(),
                data@.len() == 64,
                forall|j: int| 0 <= j < i ==> data@[j] == data_slice@[j],
                forall|j: int| i <= j < 64 ==> data@[j] == 0,
            decreases data_slice@.len() - i,
        {
            data[i] = data_slice[i];
            i = i + 1;
        }
        assert(data@.subrange(0, data_slice@.len() as int) =~= data_slice@);
        Some(Frame { id, dlc, data, sequence_number: 0 })
    }

    /// The frame with its sequence number set to `sequence_number`.
    pub fn with_sequence_number(self, sequence_number: u32) -> (r: Self)
        requires
            sequence_number <= MAX_SEQUENCE_NUMBER,
        ensures
            r.spec_id() == self.spec_id(),
            r.spec_dlc() == self.spec_dlc(),
            r.spec_buffer() == self.spec_buffer(),
            r.spec_sequence_number() == sequence_number,
    {
        Frame { id: self.id, dlc: self.dlc, data: self.data, sequence_number }
    }

    /// The frame with its data length code set to `dlc`.
    pub fn with_dlc(self, dlc: DataLengthCode) -> (r: Self)
        ensures
            r.spec_id() == self.spec_id(),
            r.spec_dlc() == dlc,
            r.spec_buffer() == self.spec_buffer(),
            r.spec_sequence_number() == self.spec_sequence_number(),
    {
        proof {
            use_type_invariant(&self);
        }
        Frame { id: self.id, dlc, data: self.data, sequence_number: self.sequence_number }
    }

    /// The identifier.
    pub fn id(&self) -> (r: Id)
        ensures
            r == self.spec_id(),
            r.in_range(),
    {
        proof {
            if let Id::Standard(s) = self.id {
                use_type_invariant(&s);
            }
            if let Id::Extended(e) = self.id {
                use_type_invariant(&e);
            }
        }
        self.id
    }

    /// The identifier as an integer, standard or extended.
    pub fn raw_id(&self) -> (r: u32)
        ensures
            r == self.spec_id().spec_raw(),
    {
        match self.id {
            Id::Standard(id) => id.as_raw() as u32,
            Id::Extended(id) => id.as_raw(),
        }
    }

    /// The data length code.
    pub fn dlc(&self) -> (r: DataLengthCode)
        ensures
            r == self.spec_dlc(),
    {
        self.dlc
    }

    /// The meaningful payload bytes.
    pub fn data(&self) -> (r: &[u8])
        ensures
            r@ == self.spec_data(),
    {
        let n = self.dlc.bytes();
        slice_subrange(self.data.as_slice(), 0, n)
    }

    /// The payload buffer, rounded up from `bytes(dlc)` to a whole number of
    /// 4-byte words, as message RAM is written.
    pub fn padded_data(&self) -> (r: &[u8])
        ensures
            r@ == self.spec_buffer().subrange(0, padded_len(self.spec_dlc().spec_bytes()) as int),
            r@.len() % 4 == 0,
    {
        let n = self.dlc.bytes();
        let padded = (n + 3) / 4 * 4;
        slice_subrange(self.data.as_slice(), 0, padded)
    }

    /// The sequence number.
    pub fn sequence_number(&self) -> (r: u32)
        ensures
            r == self.spec_sequence_number(),
            r <= MAX_SEQUENCE_NUMBER,
    {
        proof {
            use_type_invariant(self);
        }
        self.sequence_number
    }

    /// The transmit header of the frame and its payload bytes.
    pub fn as_components(&self) -> (r: (TransmitMessageObjectHeader, &[u8]))
        ensures
            r.0 == transmit_header(self.spec_id(), self.spec_dlc(), self.spec_sequence_number()),
            r.1@ == self.spec_data(),
    {
        proof {
            use_type_invariant(self);
            lemma_low_masks();
        }
        let (sid, eid) = self.id.split();
        let extended = match self.id {
            Id::Standard(_) => false,
            Id::Extended(_) => true,
        };
        let is_fd_frame = self.dlc.bytes() > 8;
        let mut control: u32 = 0;
        control = set_field(control, 0, 4, self.dlc.code());
        control = set_bit(control, 4, extended);
        control = set_bit(control, 6, is_fd_frame);
        control = set_bit(control, 7, is_fd_frame);
        control = set_field(control, 9, 23, self.sequence_number);
        let mut identifier: u32 = 0;
        identifier = set_field(identifier, 0, 11, sid);
        identifier = set_field(identifier, 11, 18, eid);
        let header = TransmitMessageObjectHeader { control, identifier };
        (header, self.data())
    }

    /// The frame that a receive message object holds: the identifier is
    /// standard where the extended identifier field is zero, and
    /// `(eid << 11) | sid` otherwise.
    pub fn from_rx_message(header: ReceiveMessageObjectHeader, data: [u8; 64]) -> (r: Self)
        ensures
            r.decodes(header, data@),
    {
        let sid = header.sid();
        let eid = header.eid();
        let id = if eid == 0 {
            Id::Standard(StandardId { raw: sid as u16 })
        } else {
            assert(eid < 0x40000 && sid < 0x800 ==> (eid << 11) | sid <= 0x1FFF_FFFF) by (bit_vector);
            Id::Extended(ExtendedId { raw: (eid << 11) | sid })
        };
        Frame { id, dlc: header.dlc(), data, sequence_number: 0 }
    }
}

/// Decoding what encoding a frame gives yields the frame again: its
/// identifier, data length code and payload bytes. The encoded header goes
/// to message RAM as eight bytes and is read back from there; `ram` is the
/// 64-byte payload buffer read back, which starts with the payload, and `g`
/// is the frame that decoding the header and `ram` gives. An extended
/// identifier under 0x800 is left out: its extended identifier field is
/// zero, so it comes back as a standard identifier.
pub proof fn lemma_round_trip(f: Frame, ram: Seq<u8>, g: Frame)
    requires
        f.spec_id().in_range(),
        f.spec_sequence_number() <= MAX_SEQUENCE_NUMBER,
        !(f.spec_id() is Extended && f.spec_id().spec_raw() < 0x800),
        ram.len() == 64,
        ram.subrange(0, f.spec_data().len() as int) == f.spec_data(),
        g.decodes(
            ReceiveMessageObjectHeader::spec_from_bytes(
                transmit_header(f.spec_id(), f.spec_dlc(), f.spec_sequence_number()).spec_bytes(),
            ),
            ram,
        ),
    ensures
        g.spec_id() == f.spec_id(),
        g.spec_dlc() == f.spec_dlc(),
        g.spec_data() == f.spec_data(),
{
    let id = f.spec_id();
    let dlc = f.spec_dlc();
    let h = transmit_header(id, dlc, f.spec_sequence_number());
    let bytes = h.spec_bytes();
    lemma_le_round_trip(h.control);
    lemma_le_round_trip(h.identifier);
    assert(bytes.subrange(0, 4) =~= le_bytes(h.control));
    assert(bytes.subrange(4, 8) =~= le_bytes(h.identifier));
    assert(le_word(bytes) == le_word(bytes.subrange(0, 4)));
    let rx = ReceiveMessageObjectHeader::spec_from_bytes(bytes);
    assert(rx.control == h.control);
    assert(rx.identifier == h.identifier);
    lemma_identifier_fields(id);
    let fd: u32 = flag(dlc.spec_bytes() > 8);
    let ext: u32 = flag(id is Extended);
    let c0 = with_field(0, 0, 4, dlc.spec_code());
    let c1 = with_field(c0, 4, 1, ext);
    let c2 = with_field(c1, 6, 1, fd);
    let c3 = with_field(c2, 7, 1, fd);
    lemma_low_masks();
    lemma_with_field(0, 0, 4, dlc.spec_code(), 0, 4);
    lemma_with_field(c0, 4, 1, ext, 0, 4);
    lemma_with_field(c1, 6, 1, fd, 0, 4);
    lemma_with_field(c2, 7, 1, fd, 0, 4);
    lemma_with_field(c3, 9, 23, f.spec_sequence_number(), 0, 4);
    lemma_code_order(g.spec_dlc(), dlc);
    match id {
        Id::Standard(s) => {
            assert(received_id(h.identifier) == id);
        },
        Id::Extended(e) => {
            let raw = e.spec_raw();
            assert(raw <= 0x1FFF_FFFF && raw >= 0x800 ==> (raw >> 11) != 0) by (bit_vector);
            lemma_extended_split(raw);
            assert(received_id(h.identifier) == id);
        },
    }
}

/// The identifier fields of the encoded header hold the identifier's
/// standard and extended parts.
proof fn lemma_identifier_fields(id: Id)
    requires
        id.in_range(),
    ensures
        field(with_field(with_field(0, 0, 11, id.sid_part()), 11, 18, id.eid_part()), 0, 11)
            == id.sid_part(),
        field(with_field(with_field(0, 0, 11, id.sid_part()), 11, 18, id.eid_part()), 11, 18)
            == id.eid_part(),
{
    lemma_low_masks();
    if let Id::Extended(e) = id {
        lemma_extended_split(e.spec_raw());
    }
    let i0 = with_field(0, 0, 11, id.sid_part());
    lemma_with_field(0, 0, 11, id.sid_part(), 0, 11);
    lemma_with_field(i0, 11, 18, id.eid_part(), 0, 11);
    lemma_with_field(i0, 11, 18, id.eid_part(), 11, 18);
}

/// `n` rounded up to a multiple of 4.
pub open spec fn padded_len(n: nat) -> nat {
    ((n + 3) / 4 * 4) as nat
}

/// The transmit header of a frame with identifier `id`, code `dlc` and
/// sequence number `seq`: IDE set for an extended identifier, BRS and FDF
/// set where the payload is over 8 bytes, RTR and ESI clear.
pub open spec fn transmit_header(id: Id, dlc: DataLengthCode, seq: u32) -> TransmitMessageObjectHeader {
    let fd = flag(dlc.spec_bytes() > 8);
    let control = with_field(with_field(with_field(with_field(with_field(0, 0, 4, dlc.spec_code()),
        4, 1, flag(id is Extended)), 6, 1, fd), 7, 1, fd), 9, 23, seq);
    let identifier = with_field(with_field(0, 0, 11, id.sid_part()), 11, 18, id.eid_part());
    TransmitMessageObjectHeader { control, identifier }
}

/// The identifier that a receive header's identifier word stands for.
pub open spec fn received_id_raw(identifier: u32) -> u32 {
    let sid = field(identifier, 0, 11);
    let eid = field(identifier, 11, 18);
    if eid == 0 { sid } else { (eid << 11) | sid }
}

/// The identifier that a receive header's identifier word stands for.
pub closed spec fn received_id(identifier: u32) -> Id {
    let sid = field(identifier, 0, 11);
    let eid = field(identifier, 11, 18);
    if eid == 0 {
        Id::Standard(StandardId { raw: sid as u16 })
    } else {
        Id::Extended(ExtendedId { raw: (eid << 11) | sid })
    }
}

} // verus!
