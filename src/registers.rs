//! Register model: each register is a 32-bit word whose bit fields are read
//! and written by shift and mask. Read-only fields have a getter and no setter.

use vstd::prelude::*;
use crate::protocol::{le_bytes, le_word, word_from_bytes, word_to_bytes};
use crate::register_map::{CANControl, ReceiveInterruptStatus};

verus! {

/// The mask of the `width` low bits.
pub open spec fn low_mask(width: u32) -> u32 {
    ((1u64 << width) - 1) as u32
}

/// The value of the `width`-bit field that starts at bit `lo` of `word`.
pub open spec fn field(word: u32, lo: u32, width: u32) -> u32 {
    (word >> lo) & low_mask(width)
}

/// `word` with the `width`-bit field at bit `lo` replaced by `value`.
pub open spec fn with_field(word: u32, lo: u32, width: u32, value: u32) -> u32 {
    (word & !(low_mask(width) << lo)) | (value << lo)
}

/// Whether bit `i` of `word` is set.
pub open spec fn bit(word: u32, i: u32) -> bool {
    field(word, i, 1) == 1
}

/// A field that fits in a register.
pub open spec fn field_fits(lo: u32, width: u32) -> bool {
    1 <= width && lo + width <= 32
}

/// Reading back a field that was just written gives the value written, and
/// writing one field leaves every field that does not overlap it as it was.
pub proof fn lemma_with_field(word: u32, lo: u32, width: u32, value: u32, lo2: u32, width2: u32)
    requires
        field_fits(lo, width),
        field_fits(lo2, width2),
        value <= low_mask(width),
    ensures
        field(with_field(word, lo, width, value), lo, width) == value,
        lo2 + width2 <= lo || lo + width <= lo2 ==>
            field(with_field(word, lo, width, value), lo2, width2) == field(word, lo2, width2),
{
    assert(field(with_field(word, lo, width, value), lo, width) == value
        && (lo2 + width2 <= lo || lo + width <= lo2 ==>
            field(with_field(word, lo, width, value), lo2, width2) == field(word, lo2, width2)))
    by (bit_vector)
        requires
            1 <= width && lo + width <= 32,
            1 <= width2 && lo2 + width2 <= 32,
            value <= ((1u64 << width) - 1) as u32,
    ;
}

proof fn lemma_mask_in_range(width: u32)
    requires
        1 <= width <= 32,
    ensures
        1 <= (1u64 << width) <= 0x1_0000_0000,
{
    assert(1 <= width <= 32 ==> 1 <= (1u64 << width) <= 0x1_0000_0000) by (bit_vector);
}

/// 1 for a set flag, 0 for a clear one.
pub open spec fn flag(b: bool) -> u32 {
    if b { 1 } else { 0 }
}

/// The masks of every field width.
pub proof fn lemma_low_masks()
    ensures
        low_mask(1) == 0x1,
        low_mask(2) == 0x3,
        low_mask(3) == 0x7,
        low_mask(4) == 0xf,
        low_mask(5) == 0x1f,
        low_mask(6) == 0x3f,
        low_mask(7) == 0x7f,
        low_mask(8) == 0xff,
        low_mask(9) == 0x1ff,
        low_mask(10) == 0x3ff,
        low_mask(11) == 0x7ff,
        low_mask(12) == 0xfff,
        low_mask(13) == 0x1fff,
        low_mask(14) == 0x3fff,
        low_mask(15) == 0x7fff,
        low_mask(16) == 0xffff,
        low_mask(17) == 0x1ffff,
        low_mask(18) == 0x3ffff,
        low_mask(19) == 0x7ffff,
        low_mask(20) == 0xfffff,
        low_mask(21) == 0x1fffff,
        low_mask(22) == 0x3fffff,
        low_mask(23) == 0x7fffff,
        low_mask(24) == 0xffffff,
        low_mask(25) == 0x1ffffff,
        low_mask(26) == 0x3ffffff,
        low_mask(27) == 0x7ffffff,
        low_mask(28) == 0xfffffff,
        low_mask(29) == 0x1fffffff,
        low_mask(30) == 0x3fffffff,
        low_mask(31) == 0x7fffffff,
        low_mask(32) == 0xffffffff,
{
    assert(
        low_mask(1) == 0x1 &&
        low_mask(2) == 0x3 &&
        low_mask(3) == 0x7 &&
        low_mask(4) == 0xf &&
        low_mask(5) == 0x1f &&
        low_mask(6) == 0x3f &&
        low_mask(7) == 0x7f &&
        low_mask(8) == 0xff &&
        low_mask(9) == 0x1ff &&
        low_mask(10) == 0x3ff &&
        low_mask(11) == 0x7ff &&
        low_mask(12) == 0xfff &&
        low_mask(13) == 0x1fff &&
        low_mask(14) == 0x3fff &&
        low_mask(15) == 0x7fff &&
        low_mask(16) == 0xffff &&
        low_mask(17) == 0x1ffff &&
        low_mask(18) == 0x3ffff &&
        low_mask(19) == 0x7ffff &&
        low_mask(20) == 0xfffff &&
        low_mask(21) == 0x1fffff &&
        low_mask(22) == 0x3fffff &&
        low_mask(23) == 0x7fffff &&
        low_mask(24) == 0xffffff &&
        low_mask(25) == 0x1ffffff &&
        low_mask(26) == 0x3ffffff &&
        low_mask(27) == 0x7ffffff &&
        low_mask(28) == 0xfffffff &&
        low_mask(29) == 0x1fffffff &&
        low_mask(30) == 0x3fffffff &&
        low_mask(31) == 0x7fffffff &&
        low_mask(32) == 0xffffffff
    ) by (bit_vector);
}

/// Reads the `width`-bit field that starts at bit `lo` of `word`.
pub fn get_field(word: u32, lo: u32, width: u32) -> (r: u32)
    requires
        field_fits(lo, width),
    ensures
        r == field(word, lo, width),
        r <= low_mask(width),
{
    proof {
        lemma_mask_in_range(width);
    }
    let mask: u32 = ((1u64 << width) - 1) as u32;
    assert(((word >> lo) & mask) <= mask) by (bit_vector);
    (word >> lo) & mask
}

/// Writes `value` into the `width`-bit field that starts at bit `lo` of `word`.
pub fn set_field(word: u32, lo: u32, width: u32, value: u32) -> (r: u32)
    requires
        field_fits(lo, width),
        value <= low_mask(width),
    ensures
        r == with_field(word, lo, width, value),
{
    proof {
        lemma_mask_in_range(width);
    }
    let mask: u32 = ((1u64 << width) - 1) as u32;
    (word & !(mask << lo)) | (value << lo)
}

/// Whether bit `i` of `word` is set.
pub fn get_bit(word: u32, i: u32) -> (r: bool)
    requires
        i < 32,
    ensures
        r == bit(word, i),
{
    get_field(word, i, 1) == 1
}

/// Sets bit `i` of `word` to `value`.
pub fn set_bit(word: u32, i: u32, value: bool) -> (r: u32)
    requires
        i < 32,
    ensures
        r == with_field(word, i, 1, flag(value)),
{
    proof {
        lemma_low_masks();
    }
    set_field(word, i, 1, if value { 1 } else { 0 })
}


/// Data length code: the 4-bit code of a frame's payload length.
#[derive(Copy, Clone, Debug, PartialEq, Eq)]
#[allow(non_camel_case_types)]
pub enum DataLengthCode {
    DLC_0,
    DLC_1,
    DLC_2,
    DLC_3,
    DLC_4,
    DLC_5,
    DLC_6,
    DLC_7,
    DLC_8,
    DLC_12,
    DLC_16,
    DLC_20,
    DLC_24,
    DLC_32,
    DLC_48,
    DLC_64,
}

impl DataLengthCode {
    /// The 4-bit code.
    pub open spec fn spec_code(self) -> u32 {
        match self {
            DataLengthCode::DLC_0 => 0,
            DataLengthCode::DLC_1 => 1,
            DataLengthCode::DLC_2 => 2,
            DataLengthCode::DLC_3 => 3,
            DataLengthCode::DLC_4 => 4,
            DataLengthCode::DLC_5 => 5,
            DataLengthCode::DLC_6 => 6,
            DataLengthCode::DLC_7 => 7,
            DataLengthCode::DLC_8 => 8,
            DataLengthCode::DLC_12 => 9,
            DataLengthCode::DLC_16 => 10,
            DataLengthCode::DLC_20 => 11,
            DataLengthCode::DLC_24 => 12,
            DataLengthCode::DLC_32 => 13,
            DataLengthCode::DLC_48 => 14,
            DataLengthCode::DLC_64 => 15,
        }
    }

    /// The number of payload bytes that the code stands for.
    pub open spec fn spec_bytes(self) -> nat {
        match self {
            DataLengthCode::DLC_0 => 0,
            DataLengthCode::DLC_1 => 1,
            DataLengthCode::DLC_2 => 2,
            DataLengthCode::DLC_3 => 3,
            DataLengthCode::DLC_4 => 4,
            DataLengthCode::DLC_5 => 5,
            DataLengthCode::DLC_6 => 6,
            DataLengthCode::DLC_7 => 7,
            DataLengthCode::DLC_8 => 8,
            DataLengthCode::DLC_12 => 12,
            DataLengthCode::DLC_16 => 16,
            DataLengthCode::DLC_20 => 20,
            DataLengthCode::DLC_24 => 24,
            DataLengthCode::DLC_32 => 32,
            DataLengthCode::DLC_48 => 48,
            DataLengthCode::DLC_64 => 64,
        }
    }

    /// Whether a payload of `len` bytes fits in a frame with this code.
    pub open spec fn fits(self, len: nat) -> bool {
        len <= self.spec_bytes()
    }

    /// Whether this is the code with the fewest bytes that still holds `len` bytes.
    pub open spec fn is_best_fit(self, len: nat) -> bool {
        &&& self.fits(len)
        &&& forall|d: DataLengthCode| #[trigger] d.fits(len) ==> self.spec_bytes() <= d.spec_bytes()
    }

    /// The 4-bit code.
    pub fn code(&self) -> (r: u32)
        ensures
            r == self.spec_code(),
            r < 16,
    {
        match self {
            DataLengthCode::DLC_0 => 0,
            DataLengthCode::DLC_1 => 1,
            DataLengthCode::DLC_2 => 2,
            DataLengthCode::DLC_3 => 3,
            DataLengthCode::DLC_4 => 4,
            DataLengthCode::DLC_5 => 5,
            DataLengthCode::DLC_6 => 6,
            DataLengthCode::DLC_7 => 7,
            DataLengthCode::DLC_8 => 8,
            DataLengthCode::DLC_12 => 9,
            DataLengthCode::DLC_16 => 10,
            DataLengthCode::DLC_20 => 11,
            DataLengthCode::DLC_24 => 12,
            DataLengthCode::DLC_32 => 13,
            DataLengthCode::DLC_48 => 14,
            DataLengthCode::DLC_64 => 15,
        }
    }

    /// The number of payload bytes that the code stands for.
    pub fn bytes(&self) -> (r: usize)
        ensures
            r == self.spec_bytes(),
            r <= 64,
    {
        match self {
            DataLengthCode::DLC_0 => 0,
            DataLengthCode::DLC_1 => 1,
            DataLengthCode::DLC_2 => 2,
            DataLengthCode::DLC_3 => 3,
            DataLengthCode::DLC_4 => 4,
            DataLengthCode::DLC_5 => 5,
            DataLengthCode::DLC_6 => 6,
            DataLengthCode::DLC_7 => 7,
            DataLengthCode::DLC_8 => 8,
            DataLengthCode::DLC_12 => 12,
            DataLengthCode::DLC_16 => 16,
            DataLengthCode::DLC_20 => 20,
            DataLengthCode::DLC_24 => 24,
            DataLengthCode::DLC_32 => 32,
            DataLengthCode::DLC_48 => 48,
            DataLengthCode::DLC_64 => 64,
        }
    }

    /// The code whose 4-bit value is `code`.
    pub fn from_code(code: u32) -> (r: Self)
        requires
            code < 16,
        ensures
            r.spec_code() == code,
    {
        if code == 0 {
            DataLengthCode::DLC_0
        } else if code == 1 {
            DataLengthCode::DLC_1
        } else if code == 2 {
            DataLengthCode::DLC_2
        } else if code == 3 {
            DataLengthCode::DLC_3
        } else if code == 4 {
            DataLengthCode::DLC_4
        } else if code == 5 {
            DataLengthCode::DLC_5
        } else if code == 6 {
            DataLengthCode::DLC_6
        } else if code == 7 {
            DataLengthCode::DLC_7
        } else if code == 8 {
            DataLengthCode::DLC_8
        } else if code == 9 {
            DataLengthCode::DLC_12
        } else if code == 10 {
            DataLengthCode::DLC_16
        } else if code == 11 {
            DataLengthCode::DLC_20
        } else if code == 12 {
            DataLengthCode::DLC_24
        } else if code == 13 {
            DataLengthCode::DLC_32
        } else if code == 14 {
            DataLengthCode::DLC_48
        } else {
            DataLengthCode::DLC_64
        }
    }

    /// The code with the fewest bytes that holds `len` bytes; none where
    /// `len` is over 64.
    pub fn best_fit(len: usize) -> (r: Option<Self>)
        ensures
            r is Some <==> len <= 64,
            r matches Some(d) ==> d.is_best_fit(len as nat),
    {
        if len <= 0 {
            Some(DataLengthCode::DLC_0)
        } else if len <= 1 {
            Some(DataLengthCode::DLC_1)
        } else if len <= 2 {
            Some(DataLengthCode::DLC_2)
        } else if len <= 3 {
            Some(DataLengthCode::DLC_3)
        } else if len <= 4 {
            Some(DataLengthCode::DLC_4)
        } else if len <= 5 {
            Some(DataLengthCode::DLC_5)
        } else if len <= 6 {
            Some(DataLengthCode::DLC_6)
        } else if len <= 7 {
            Some(DataLengthCode::DLC_7)
        } else if len <= 8 {
            Some(DataLengthCode::DLC_8)
        } else if len <= 12 {
            Some(DataLengthCode::DLC_12)
        } else if len <= 16 {
            Some(DataLengthCode::DLC_16)
        } else if len <= 20 {
            Some(DataLengthCode::DLC_20)
        } else if len <= 24 {
            Some(DataLengthCode::DLC_24)
        } else if len <= 32 {
            Some(DataLengthCode::DLC_32)
        } else if len <= 48 {
            Some(DataLengthCode::DLC_48)
        } else if len <= 64 {
            Some(DataLengthCode::DLC_64)
        } else {
            None
        }
    }
}

/// There is one best-fitting code for a length: the code with the fewest
/// bytes that still holds it.
pub proof fn lemma_best_fit_unique(a: DataLengthCode, b: DataLengthCode, len: nat)
    requires
        a.is_best_fit(len),
        b.is_best_fit(len),
    ensures
        a == b,
{
    assert(a.fits(len) && b.fits(len));
    assert(a.spec_bytes() <= b.spec_bytes());
    assert(b.spec_bytes() <= a.spec_bytes());
}

/// Every code stands for at most 64 bytes, and the byte count grows with the code.
pub proof fn lemma_code_order(a: DataLengthCode, b: DataLengthCode)
    ensures
        a.spec_bytes() <= 64,
        a.spec_code() < b.spec_code() <==> a.spec_bytes() < b.spec_bytes(),
        a.spec_code() == b.spec_code() <==> a == b,
{
}

/// Header of a message object in a transmit FIFO: the eight bytes written
/// to message RAM ahead of the payload. `control` is the first word, with
/// DLC, IDE, RTR, BRS, FDF, ESI and the sequence number; `identifier` is the
/// second, with the standard and extended identifier bits.
#[derive(Copy, Clone, Debug, PartialEq, Eq)]
pub struct TransmitMessageObjectHeader {
    pub control: u32,
    pub identifier: u32,
}

/// Header of a message object in a receive FIFO: the eight bytes read from
/// message RAM ahead of the payload. `control` holds DLC, IDE, RTR, BRS,
/// FDF, ESI and the filter hit; `identifier` the identifier bits.
#[derive(Copy, Clone, Debug, PartialEq, Eq)]
pub struct ReceiveMessageObjectHeader {
    pub control: u32,
    pub identifier: u32,
}

impl TransmitMessageObjectHeader {
    /// The eight bytes of the header as they lie in message RAM.
    pub open spec fn spec_bytes(self) -> Seq<u8> {
        le_bytes(self.control) + le_bytes(self.identifier)
    }

    /// The eight bytes of the header as they lie in message RAM.
    pub fn into_bytes(&self) -> (r: [u8; 8])
        ensures
            r@ == self.spec_bytes(),
    {
        let c = word_to_bytes(self.control);
        let i = word_to_bytes(self.identifier);
        let r = [c[0], c[1], c[2], c[3], i[0], i[1], i[2], i[3]];
        assert(r@ =~= self.spec_bytes());
        r
    }
}

impl ReceiveMessageObjectHeader {
    /// The header that the eight bytes `b` of message RAM hold.
    pub open spec fn spec_from_bytes(b: Seq<u8>) -> Self {
        ReceiveMessageObjectHeader { control: le_word(b), identifier: le_word(b.subrange(4, 8)) }
    }

    /// The header that the eight bytes `bytes` of message RAM hold.
    pub fn from_bytes(bytes: &[u8]) -> (r: Self)
        requires
            bytes@.len() == 8,
        ensures
            r == Self::spec_from_bytes(bytes@),
    {
        let c = [bytes[0], bytes[1], bytes[2], bytes[3]];
        let i = [bytes[4], bytes[5], bytes[6], bytes[7]];
        let control = word_from_bytes(c.as_slice());
        let identifier = word_from_bytes(i.as_slice());
        assert(i@ =~= bytes@.subrange(4, 8));
        ReceiveMessageObjectHeader { control, identifier }
    }

    /// Data length code.
    pub fn dlc(&self) -> (r: DataLengthCode)
        ensures
            r.spec_code() == field(self.control, 0, 4),
    {
        let code = get_field(self.control, 0, 4);
        proof {
            lemma_low_masks();
        }
        DataLengthCode::from_code(code)
    }

    /// Identifier extension flag.
    pub fn ide(&self) -> (r: bool)
        ensures
            r == bit(self.control, 4),
    {
        get_bit(self.control, 4)
    }

    /// FD frame flag.
    pub fn fdf(&self) -> (r: bool)
        ensures
            r == bit(self.control, 7),
    {
        get_bit(self.control, 7)
    }

    /// Number of the filter that accepted the message.
    pub fn filthit(&self) -> (r: u32)
        ensures
            r == field(self.control, 11, 5),
    {
        get_field(self.control, 11, 5)
    }

    /// Standard identifier bits.
    pub fn sid(&self) -> (r: u32)
        ensures
            r == field(self.identifier, 0, 11),
            r < 0x800,
    {
        proof {
            lemma_low_masks();
        }
        get_field(self.identifier, 0, 11)
    }

    /// Extended identifier bits.
    pub fn eid(&self) -> (r: u32)
        ensures
            r == field(self.identifier, 11, 18),
            r < 0x40000,
    {
        proof {
            lemma_low_masks();
        }
        get_field(self.identifier, 11, 18)
    }
}

/// Operation mode of the controller, as requested in REQOP and reported in OPMOD.
#[derive(Copy, Clone, Debug, PartialEq, Eq)]
pub enum OperationMode {
    Normal,
    Sleep,
    InternalLoopback,
    ListenOnly,
    Configuration,
    ExternalLoopback,
    Classic,
    Restricted,
}

impl OperationMode {
    /// The 3-bit code of the mode.
    pub open spec fn spec_code(self) -> u32 {
        match self {
            OperationMode::Normal => 0b000,
            OperationMode::Sleep => 0b001,
            OperationMode::InternalLoopback => 0b010,
            OperationMode::ListenOnly => 0b011,
            OperationMode::Configuration => 0b100,
            OperationMode::ExternalLoopback => 0b101,
            OperationMode::Classic => 0b110,
            OperationMode::Restricted => 0b111,
        }
    }

    /// The 3-bit code of the mode.
    pub fn code(&self) -> (r: u32)
        ensures
            r == self.spec_code(),
            r < 8,
    {
        match self {
            OperationMode::Normal => 0b000,
            OperationMode::Sleep => 0b001,
            OperationMode::InternalLoopback => 0b010,
            OperationMode::ListenOnly => 0b011,
            OperationMode::Configuration => 0b100,
            OperationMode::ExternalLoopback => 0b101,
            OperationMode::Classic => 0b110,
            OperationMode::Restricted => 0b111,
        }
    }

    /// The mode whose code is `code`.
    pub fn from_code(code: u32) -> (r: Self)
        requires
            code < 8,
        ensures
            r.spec_code() == code,
    {
        if code == 0 {
            OperationMode::Normal
        } else if code == 1 {
            OperationMode::Sleep
        } else if code == 2 {
            OperationMode::InternalLoopback
        } else if code == 3 {
            OperationMode::ListenOnly
        } else if code == 4 {
            OperationMode::Configuration
        } else if code == 5 {
            OperationMode::ExternalLoopback
        } else if code == 6 {
            OperationMode::Classic
        } else {
            OperationMode::Restricted
        }
    }
}

/// Divisor of the clock output pin.
#[derive(Copy, Clone, Debug, PartialEq, Eq)]
pub enum ClockOutputDivisor {
    DivideBy1,
    DivideBy2,
    DivideBy4,
    DivideBy10,
}

impl ClockOutputDivisor {
    /// The 2-bit code.
    pub open spec fn spec_code(self) -> u32 {
        match self {
            ClockOutputDivisor::DivideBy1 => 0,
            ClockOutputDivisor::DivideBy2 => 1,
            ClockOutputDivisor::DivideBy4 => 2,
            ClockOutputDivisor::DivideBy10 => 3,
        }
    }

    /// The 2-bit code.
    pub fn code(&self) -> (r: u32)
        ensures
            r == self.spec_code(),
            r < 4,
    {
        match self {
            ClockOutputDivisor::DivideBy1 => 0,
            ClockOutputDivisor::DivideBy2 => 1,
            ClockOutputDivisor::DivideBy4 => 2,
            ClockOutputDivisor::DivideBy10 => 3,
        }
    }

    /// The value whose code is `code`.
    pub fn from_code(code: u32) -> (r: Self)
        requires
            code < 4,
        ensures
            r.spec_code() == code,
    {
        if code == 0 {
            ClockOutputDivisor::DivideBy1
        } else if code == 1 {
            ClockOutputDivisor::DivideBy2
        } else if code == 2 {
            ClockOutputDivisor::DivideBy4
        } else {
            ClockOutputDivisor::DivideBy10
        }
    }
}

/// Divisor of the system clock.
#[derive(Copy, Clone, Debug, PartialEq, Eq)]
pub enum ClockDivisor {
    DivideBy1,
    DivideBy2,
}

impl ClockDivisor {
    /// The 1-bit code.
    pub open spec fn spec_code(self) -> u32 {
        match self {
            ClockDivisor::DivideBy1 => 0,
            ClockDivisor::DivideBy2 => 1,
        }
    }

    /// The 1-bit code.
    pub fn code(&self) -> (r: u32)
        ensures
            r == self.spec_code(),
            r < 2,
    {
        match self {
            ClockDivisor::DivideBy1 => 0,
            ClockDivisor::DivideBy2 => 1,
        }
    }

    /// The value whose code is `code`.
    pub fn from_code(code: u32) -> (r: Self)
        requires
            code < 2,
        ensures
            r.spec_code() == code,
    {
        if code == 0 {
            ClockDivisor::DivideBy1
        } else {
            ClockDivisor::DivideBy2
        }
    }
}

/// Interrupt flag code of the interrupt code register. Where several interrupts are pending, the one with the highest code is shown.
#[derive(Copy, Clone, Debug, PartialEq, Eq)]
pub enum InterruptFlag {
    TXQ,
    FIFO1,
    FIFO2,
    FIFO3,
    FIFO4,
    FIFO5,
    FIFO6,
    FIFO7,
    FIFO8,
    FIFO9,
    FIFO10,
    FIFO11,
    FIFO12,
    FIFO13,
    FIFO14,
    FIFO15,
    FIFO16,
    FIFO17,
    FIFO18,
    FIFO19,
    FIFO20,
    FIFO21,
    FIFO22,
    FIFO23,
    FIFO24,
    FIFO25,
    FIFO26,
    FIFO27,
    FIFO28,
    FIFO29,
    FIFO30,
    FIFO31,
    NoInterrupt,
    Error,
    WakeUp,
    ReceiveFIFOOverflow,
    AddressError,
    RXTXMABUnderflowOverflow,
    TBCOverflow,
    OperationModeChange,
    InvalidMessage,
    TransmitEventFIFO,
    TransmitAttempt,
}

impl InterruptFlag {
    /// The 7-bit code.
    pub open spec fn spec_code(self) -> u32 {
        match self {
            InterruptFlag::TXQ => 0,
            InterruptFlag::FIFO1 => 1,
            InterruptFlag::FIFO2 => 2,
            InterruptFlag::FIFO3 => 3,
            InterruptFlag::FIFO4 => 4,
            InterruptFlag::FIFO5 => 5,
            InterruptFlag::FIFO6 => 6,
            InterruptFlag::FIFO7 => 7,
            InterruptFlag::FIFO8 => 8,
            InterruptFlag::FIFO9 => 9,
            InterruptFlag::FIFO10 => 10,
            InterruptFlag::FIFO11 => 11,
            InterruptFlag::FIFO12 => 12,
            InterruptFlag::FIFO13 => 13,
            InterruptFlag::FIFO14 => 14,
            InterruptFlag::FIFO15 => 15,
            InterruptFlag::FIFO16 => 16,
            InterruptFlag::FIFO17 => 17,
            InterruptFlag::FIFO18 => 18,
            InterruptFlag::FIFO19 => 19,
            InterruptFlag::FIFO20 => 20,
            InterruptFlag::FIFO21 => 21,
            InterruptFlag::FIFO22 => 22,
            InterruptFlag::FIFO23 => 23,
            InterruptFlag::FIFO24 => 24,
            InterruptFlag::FIFO25 => 25,
            InterruptFlag::FIFO26 => 26,
            InterruptFlag::FIFO27 => 27,
            InterruptFlag::FIFO28 => 28,
            InterruptFlag::FIFO29 => 29,
            InterruptFlag::FIFO30 => 30,
            InterruptFlag::FIFO31 => 31,
            InterruptFlag::NoInterrupt => 64,
            InterruptFlag::Error => 65,
            InterruptFlag::WakeUp => 66,
            InterruptFlag::ReceiveFIFOOverflow => 67,
            InterruptFlag::AddressError => 68,
            InterruptFlag::RXTXMABUnderflowOverflow => 69,
            InterruptFlag::TBCOverflow => 70,
            InterruptFlag::OperationModeChange => 71,
            InterruptFlag::InvalidMessage => 72,
            InterruptFlag::TransmitEventFIFO => 73,
            InterruptFlag::TransmitAttempt => 74,
        }
    }

    /// The 7-bit code.
    pub fn code(&self) -> (r: u32)
        ensures
            r == self.spec_code(),
            r < 128,
    {
        match self {
            InterruptFlag::TXQ => 0,
            InterruptFlag::FIFO1 => 1,
            InterruptFlag::FIFO2 => 2,
            InterruptFlag::FIFO3 => 3,
            InterruptFlag::FIFO4 => 4,
            InterruptFlag::FIFO5 => 5,
            InterruptFlag::FIFO6 => 6,
            InterruptFlag::FIFO7 => 7,
            InterruptFlag::FIFO8 => 8,
            InterruptFlag::FIFO9 => 9,
            InterruptFlag::FIFO10 => 10,
            InterruptFlag::FIFO11 => 11,
            InterruptFlag::FIFO12 => 12,
            InterruptFlag::FIFO13 => 13,
            InterruptFlag::FIFO14 => 14,
            InterruptFlag::FIFO15 => 15,
            InterruptFlag::FIFO16 => 16,
            InterruptFlag::FIFO17 => 17,
            InterruptFlag::FIFO18 => 18,
            InterruptFlag::FIFO19 => 19,
            InterruptFlag::FIFO20 => 20,
            InterruptFlag::FIFO21 => 21,
            InterruptFlag::FIFO22 => 22,
            InterruptFlag::FIFO23 => 23,
            InterruptFlag::FIFO24 => 24,
            InterruptFlag::FIFO25 => 25,
            InterruptFlag::FIFO26 => 26,
            InterruptFlag::FIFO27 => 27,
            InterruptFlag::FIFO28 => 28,
            InterruptFlag::FIFO29 => 29,
            InterruptFlag::FIFO30 => 30,
            InterruptFlag::FIFO31 => 31,
            InterruptFlag::NoInterrupt => 64,
            InterruptFlag::Error => 65,
            InterruptFlag::WakeUp => 66,
            InterruptFlag::ReceiveFIFOOverflow => 67,
            InterruptFlag::AddressError => 68,
            InterruptFlag::RXTXMABUnderflowOverflow => 69,
            InterruptFlag::TBCOverflow => 70,
            InterruptFlag::OperationModeChange => 71,
            InterruptFlag::InvalidMessage => 72,
            InterruptFlag::TransmitEventFIFO => 73,
            InterruptFlag::TransmitAttempt => 74,
        }
    }

    /// The value whose code is `code`; none for a code that stands for no value.
    pub fn from_code(code: u32) -> (r: Option<Self>)
        ensures
            r matches Some(v) ==> v.spec_code() == code,
            r is None ==> forall|v: Self| v.spec_code() != code,
    {
        if code == 0 {
            Some(InterruptFlag::TXQ)
        } else if code == 1 {
            Some(InterruptFlag::FIFO1)
        } else if code == 2 {
            Some(InterruptFlag::FIFO2)
        } else if code == 3 {
            Some(InterruptFlag::FIFO3)
        } else if code == 4 {
            Some(InterruptFlag::FIFO4)
        } else if code == 5 {
            Some(InterruptFlag::FIFO5)
        } else if code == 6 {
            Some(InterruptFlag::FIFO6)
        } else if code == 7 {
            Some(InterruptFlag::FIFO7)
        } else if code == 8 {
            Some(InterruptFlag::FIFO8)
        } else if code == 9 {
            Some(InterruptFlag::FIFO9)
        } else if code == 10 {
            Some(InterruptFlag::FIFO10)
        } else if code == 11 {
            Some(InterruptFlag::FIFO11)
        } else if code == 12 {
            Some(InterruptFlag::FIFO12)
        } else if code == 13 {
            Some(InterruptFlag::FIFO13)
        } else if code == 14 {
            Some(InterruptFlag::FIFO14)
        } else if code == 15 {
            Some(InterruptFlag::FIFO15)
        } else if code == 16 {
            Some(InterruptFlag::FIFO16)
        } else if code == 17 {
            Some(InterruptFlag::FIFO17)
        } else if code == 18 {
            Some(InterruptFlag::FIFO18)
        } else if code == 19 {
            Some(InterruptFlag::FIFO19)
        } else if code == 20 {
            Some(InterruptFlag::FIFO20)
        } else if code == 21 {
            Some(InterruptFlag::FIFO21)
        } else if code == 22 {
            Some(InterruptFlag::FIFO22)
        } else if code == 23 {
            Some(InterruptFlag::FIFO23)
        } else if code == 24 {
            Some(InterruptFlag::FIFO24)
        } else if code == 25 {
            Some(InterruptFlag::FIFO25)
        } else if code == 26 {
            Some(InterruptFlag::FIFO26)
        } else if code == 27 {
            Some(InterruptFlag::FIFO27)
        } else if code == 28 {
            Some(InterruptFlag::FIFO28)
        } else if code == 29 {
            Some(InterruptFlag::FIFO29)
        } else if code == 30 {
            Some(InterruptFlag::FIFO30)
        } else if code == 31 {
            Some(InterruptFlag::FIFO31)
        } else if code == 64 {
            Some(InterruptFlag::NoInterrupt)
        } else if code == 65 {
            Some(InterruptFlag::Error)
        } else if code == 66 {
            Some(InterruptFlag::WakeUp)
        } else if code == 67 {
            Some(InterruptFlag::ReceiveFIFOOverflow)
        } else if code == 68 {
            Some(InterruptFlag::AddressError)
        } else if code == 69 {
            Some(InterruptFlag::RXTXMABUnderflowOverflow)
        } else if code == 70 {
            Some(InterruptFlag::TBCOverflow)
        } else if code == 71 {
            Some(InterruptFlag::OperationModeChange)
        } else if code == 72 {
            Some(InterruptFlag::InvalidMessage)
        } else if code == 73 {
            Some(InterruptFlag::TransmitEventFIFO)
        } else if code == 74 {
            Some(InterruptFlag::TransmitAttempt)
        } else {
            None
        }
    }
}

/// Retransmission policy of a transmit FIFO.
#[derive(Copy, Clone, Debug, PartialEq, Eq)]
pub enum RetransmissionAttempts {
    Disable,
    Three,
    Unlimited1,
    Unlimited2,
}

impl RetransmissionAttempts {
    /// The 2-bit code of the policy.
    pub open spec fn spec_code(self) -> u32 {
        match self {
            RetransmissionAttempts::Disable => 0b00,
            RetransmissionAttempts::Three => 0b01,
            RetransmissionAttempts::Unlimited1 => 0b10,
            RetransmissionAttempts::Unlimited2 => 0b11,
        }
    }

    /// The 2-bit code of the policy.
    pub fn code(&self) -> (r: u32)
        ensures
            r == self.spec_code(),
            r < 4,
    {
        match self {
            RetransmissionAttempts::Disable => 0b00,
            RetransmissionAttempts::Three => 0b01,
            RetransmissionAttempts::Unlimited1 => 0b10,
            RetransmissionAttempts::Unlimited2 => 0b11,
        }
    }
}

/// Payload size class of a FIFO: the room each of its messages has for data.
#[derive(Copy, Clone, Debug, PartialEq, Eq)]
pub enum PayloadSize {
    Bytes8,
    Bytes12,
    Bytes16,
    Bytes20,
    Bytes24,
    Bytes32,
    Bytes48,
    Bytes64,
}

impl PayloadSize {
    /// The 3-bit code of the size class.
    pub open spec fn spec_code(self) -> u32 {
        match self {
            PayloadSize::Bytes8 => 0,
            PayloadSize::Bytes12 => 1,
            PayloadSize::Bytes16 => 2,
            PayloadSize::Bytes20 => 3,
            PayloadSize::Bytes24 => 4,
            PayloadSize::Bytes32 => 5,
            PayloadSize::Bytes48 => 6,
            PayloadSize::Bytes64 => 7,
        }
    }

    /// The 3-bit code of the size class.
    pub fn code(&self) -> (r: u32)
        ensures
            r == self.spec_code(),
            r < 8,
    {
        match self {
            PayloadSize::Bytes8 => 0,
            PayloadSize::Bytes12 => 1,
            PayloadSize::Bytes16 => 2,
            PayloadSize::Bytes20 => 3,
            PayloadSize::Bytes24 => 4,
            PayloadSize::Bytes32 => 5,
            PayloadSize::Bytes48 => 6,
            PayloadSize::Bytes64 => 7,
        }
    }
}

/// Highest FIFO index; FIFOs are numbered from 1.
pub const MAX_FIFO: u8 = 31;

/// Highest filter index; filters are numbered from 0.
pub const MAX_FILTER: u8 = 31;

/// See [`fifo_control_address`].
pub open spec fn spec_fifo_control_address(fifo: u8) -> u16 {
    indexed_address(0x05C, 12, fifo - 1) as u16
}

/// See [`fifo_status_address`].
pub open spec fn spec_fifo_status_address(fifo: u8) -> u16 {
    indexed_address(0x060, 12, fifo - 1) as u16
}

/// See [`fifo_user_address_address`].
pub open spec fn spec_fifo_user_address_address(fifo: u8) -> u16 {
    indexed_address(0x064, 12, fifo - 1) as u16
}

/// See [`filter_object_address`].
pub open spec fn spec_filter_object_address(filter: u8) -> u16 {
    indexed_address(0x1F0, 8, filter as int) as u16
}

/// See [`mask_address`].
pub open spec fn spec_mask_address(filter: u8) -> u16 {
    indexed_address(0x1F4, 8, filter as int) as u16
}

/// See [`filter_control_byte_address`].
pub open spec fn spec_filter_control_byte_address(filter: u8) -> u16 {
    indexed_address(0x1D0, 1, filter as int) as u16
}

/// Address of the register at `index` in an array of registers.
pub open spec fn indexed_address(base: int, stride: int, index: int) -> int {
    base + stride * index
}

/// Address of the control register of FIFO `fifo`.
pub fn fifo_control_address(fifo: u8) -> (r: u16)
    requires
        1 <= fifo <= MAX_FIFO,
    ensures
        r == spec_fifo_control_address(fifo),
{
    0x05C + 12 * (fifo as u16 - 1)
}

/// Address of the status register of FIFO `fifo`.
pub fn fifo_status_address(fifo: u8) -> (r: u16)
    requires
        1 <= fifo <= MAX_FIFO,
    ensures
        r == spec_fifo_status_address(fifo),
{
    0x060 + 12 * (fifo as u16 - 1)
}

/// Address of the user address register of FIFO `fifo`.
pub fn fifo_user_address_address(fifo: u8) -> (r: u16)
    requires
        1 <= fifo <= MAX_FIFO,
    ensures
        r == spec_fifo_user_address_address(fifo),
{
    0x064 + 12 * (fifo as u16 - 1)
}

/// Address of the filter object register of filter `filter`.
pub fn filter_object_address(filter: u8) -> (r: u16)
    requires
        filter <= MAX_FILTER,
    ensures
        r == spec_filter_object_address(filter),
{
    0x1F0 + 8 * (filter as u16)
}

/// Address of the mask register of filter `filter`.
pub fn mask_address(filter: u8) -> (r: u16)
    requires
        filter <= MAX_FILTER,
    ensures
        r == spec_mask_address(filter),
{
    0x1F4 + 8 * (filter as u16)
}

/// Address of the byte of the filter control registers that belongs to
/// filter `filter`: four filters share each 32-bit register, one byte each.
pub fn filter_control_byte_address(filter: u8) -> (r: u16)
    requires
        filter <= MAX_FILTER,
    ensures
        r == spec_filter_control_byte_address(filter),
{
    0x1D0 + filter as u16
}

/// The filter control byte that enables a filter and points it at FIFO `fifo`.
pub fn filter_control_byte(fifo: u8) -> (r: u8)
    requires
        fifo <= MAX_FIFO,
    ensures
        r == 0x80 + fifo,
{
    assert(fifo <= 31 ==> (1u8 << 7u8) | fifo == 0x80 + fifo) by (bit_vector);
    (1u8 << 7u8) | fifo
}

impl CANControl {
    /// Operation mode status; read-only.
    pub fn opmode(&self) -> (r: OperationMode)
        ensures
            r.spec_code() == field(self.bits, 21, 3),
    {
        let code = get_field(self.bits, 21, 3);
        proof {
            lemma_low_masks();
        }
        OperationMode::from_code(code)
    }

    /// Sets the requested operation mode.
    pub fn set_reqop(&mut self, mode: OperationMode)
        ensures
            final(self).bits == with_field(old(self).bits, 24, 3, mode.spec_code()),
    {
        proof {
            lemma_low_masks();
        }
        self.bits = set_field(self.bits, 24, 3, mode.code());
    }
}

impl ReceiveInterruptStatus {
    /// Whether FIFO `fifo` has a receive interrupt pending.
    pub fn fifo(&self, fifo: u8) -> (r: bool)
        requires
            1 <= fifo <= MAX_FIFO,
        ensures
            r == bit(self.bits, fifo as u32),
    {
        get_bit(self.bits, fifo as u32)
    }
}

} // verus!
