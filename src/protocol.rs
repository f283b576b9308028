//! Shapes of the SPI transactions understood by the controller.

use vstd::prelude::*;

verus! {

/// First address of the message RAM in the controller's address space.
pub const RAM_START: u16 = 0x400;

/// Size of the message RAM, in bytes.
pub const RAM_SIZE: u16 = 2048;

/// SPI instructions supported by the CAN controller.
#[derive(Copy, Clone, Debug, PartialEq, Eq)]
pub enum Instruction {
    /// Resets internal registers to the default state, sets Configuration mode.
    Reset,
    /// Reads SFR/RAM from address A.
    Read,
    /// Writes SFR/RAM to address A.
    Write,
    /// Reads SFR/RAM from address A, N data bytes, two bytes of CRC.
    ReadCRC,
    /// Writes SFR/RAM to address A, N data bytes, two bytes of CRC.
    WriteCRC,
    /// Writes SFR/RAM to address A after checking the CRC.
    WriteSafe,
}

impl Instruction {
    /// The 4-bit opcode of the instruction.
    pub open spec fn spec_opcode(self) -> u8 {
        match self {
            Instruction::Reset => 0b0000,
            Instruction::Read => 0b0011,
            Instruction::Write => 0b0010,
            Instruction::ReadCRC => 0b1011,
            Instruction::WriteCRC => 0b1010,
            Instruction::WriteSafe => 0b1100,
        }
    }

    /// The 4-bit opcode of the instruction.
    pub fn opcode(&self) -> (r: u8)
        ensures
            r == self.spec_opcode(),
            r < 16,
    {
        match self {
            Instruction::Reset => 0b0000,
            Instruction::Read => 0b0011,
            Instruction::Write => 0b0010,
            Instruction::ReadCRC => 0b1011,
            Instruction::WriteCRC => 0b1010,
            Instruction::WriteSafe => 0b1100,
        }
    }

    /// The two bytes that open a command: the opcode in the top nibble of the
    /// first byte, then the 12-bit address, its top four bits in the low
    /// nibble of the first byte and its low eight bits in the second.
    pub fn header(&self, address: u16) -> (r: [u8; 2])
        ensures
            r@ == command_header(self.spec_opcode(), address),
    {
        let instruction = self.opcode();
        let high: u8 = ((address >> 8) & 0xF) as u8;
        let low: u8 = (address & 0xFF) as u8;
        assert(((address >> 8) & 0xF) == (address / 256) % 16) by (bit_vector);
        assert((address & 0xFF) == address % 256) by (bit_vector);
        assert(instruction < 16 ==> instruction << 4 == instruction * 16) by (bit_vector);
        let first: u8 = (instruction << 4) + high;
        let r = [first, low];
        assert(r@ =~= command_header(self.spec_opcode(), address));
        r
    }
}

/// The two header bytes of a command with opcode `op` on `address`.
pub open spec fn command_header(op: u8, address: u16) -> Seq<u8> {
    seq![(op * 16 + (address / 256) % 16) as u8, (address % 256) as u8]
}

/// Bytes of `w`, least significant first.
pub open spec fn le_bytes(w: u32) -> Seq<u8> {
    seq![(w & 0xFF) as u8, ((w >> 8) & 0xFF) as u8, ((w >> 16) & 0xFF) as u8, ((w >> 24) & 0xFF) as u8]
}

/// The word whose bytes, least significant first, are the first four of `b`.
pub open spec fn le_word(b: Seq<u8>) -> u32 {
    (b[0] as u32) | ((b[1] as u32) << 8) | ((b[2] as u32) << 16) | ((b[3] as u32) << 24)
}

/// A word written out and read back is the same word.
pub proof fn lemma_le_round_trip(w: u32)
    ensures
        le_word(le_bytes(w)) == w,
{
    let b = le_bytes(w);
    let (b0, b1, b2, b3) = (b[0], b[1], b[2], b[3]);
    assert(b0 == (w & 0xFF) as u8 && b1 == ((w >> 8) & 0xFF) as u8 && b2 == ((w >> 16) & 0xFF) as u8
        && b3 == ((w >> 24) & 0xFF) as u8);
    assert(b0 == (w & 0xFF) as u8 && b1 == ((w >> 8) & 0xFF) as u8 && b2 == ((w >> 16) & 0xFF) as u8
        && b3 == ((w >> 24) & 0xFF) as u8 ==> (b0 as u32) | ((b1 as u32) << 8) | ((b2 as u32) << 16)
        | ((b3 as u32) << 24) == w) by (bit_vector);
}

/// The controller address of offset `offset` in message RAM. Addresses are
/// 12 bits on the wire, so the sum is taken modulo 2^16 and only its low 12
/// bits are sent.
pub open spec fn ram_address(offset: u16) -> u16 {
    ((RAM_START + offset) % 0x10000) as u16
}

/// One exchange framed by a single chip select: the bytes of `command` are
/// written, then `read_len` bytes are read and handed back to whoever asked
/// for the exchange.
#[derive(Clone, Debug, PartialEq, Eq)]
pub struct Transaction {
    pub command: Vec<u8>,
    pub read_len: usize,
}

impl View for Transaction {
    type V = (Seq<u8>, nat);

    /// The bytes written and the number of bytes read.
    open spec fn view(&self) -> (Seq<u8>, nat) {
        (self.command@, self.read_len as nat)
    }
}

/// Reset.
pub open spec fn reset_tx() -> (Seq<u8>, nat) {
    (command_header(Instruction::Reset.spec_opcode(), 0), 0)
}

/// Read of the register at `address`: the read instruction, then four bytes in.
pub open spec fn read_register_tx(address: u16) -> (Seq<u8>, nat) {
    (command_header(Instruction::Read.spec_opcode(), address), 4)
}

/// Write of `value` to the register at `address`: the write instruction,
/// then the four bytes of `value`, least significant first.
pub open spec fn write_register_tx(address: u16, value: u32) -> (Seq<u8>, nat) {
    (command_header(Instruction::Write.spec_opcode(), address) + le_bytes(value), 0)
}

/// Write of the single byte `data` at `address`.
pub open spec fn write_register_byte_tx(address: u16, data: u8) -> (Seq<u8>, nat) {
    (command_header(Instruction::Write.spec_opcode(), address) + seq![data], 0)
}

/// Read of `len` bytes of message RAM at offset `offset`.
pub open spec fn read_bytes_tx(offset: u16, len: nat) -> (Seq<u8>, nat) {
    (command_header(Instruction::Read.spec_opcode(), ram_address(offset)), len)
}

/// Write of `data` to message RAM at offset `offset`.
pub open spec fn write_bytes_tx(offset: u16, data: Seq<u8>) -> (Seq<u8>, nat) {
    (command_header(Instruction::Write.spec_opcode(), ram_address(offset)) + data, 0)
}

/// `header` followed by `data`.
fn command_with_data(header: [u8; 2], data: &[u8]) -> (r: Vec<u8>)
    ensures
        r@ == header@ + data@,
{
    let mut v: Vec<u8> = Vec::new();
    v.push(header[0]);
    v.push(header[1]);
    let mut i: usize = 0;
    while i < data.len()
        invariant
            i <= data@.len(),
            v@ == header@ + data@.subrange(0, i as int),
        decreases data@.len() - i,
    {
        v.push(data[i]);
        i = i + 1;
        assert(v@ =~= header@ + data@.subrange(0, i as int));
    }
    assert(data@.subrange(0, data@.len() as int) =~= data@);
    v
}

/// The bytes of `w`, least significant first.
pub fn word_to_bytes(w: u32) -> (r: [u8; 4])
    ensures
        r@ == le_bytes(w),
{
    let r = [(w & 0xFF) as u8, ((w >> 8) & 0xFF) as u8, ((w >> 16) & 0xFF) as u8, ((w >> 24) & 0xFF) as u8];
    assert(r@ =~= le_bytes(w));
    r
}

/// The word whose bytes, least significant first, are `bytes`.
pub fn word_from_bytes(bytes: &[u8]) -> (r: u32)
    requires
        bytes@.len() == 4,
    ensures
        r == le_word(bytes@),
{
    (bytes[0] as u32) | ((bytes[1] as u32) << 8) | ((bytes[2] as u32) << 16) | ((bytes[3] as u32) << 24)
}

/// Reset: the single reset instruction, which puts the controller in
/// Configuration mode.
pub fn reset_command() -> (r: Transaction)
    ensures
        r@ == reset_tx(),
{
    let h = Instruction::Reset.header(0x00);
    Transaction { command: command_with_data(h, &[]), read_len: 0 }
}

/// Reads the 32-bit register at `address`.
pub fn read_register_command(address: u16) -> (r: Transaction)
    ensures
        r@ == read_register_tx(address),
{
    let h = Instruction::Read.header(address);
    Transaction { command: command_with_data(h, &[]), read_len: 4 }
}

/// Writes `value` to the 32-bit register at `address`.
pub fn write_register_command(address: u16, value: u32) -> (r: Transaction)
    ensures
        r@ == write_register_tx(address, value),
{
    let h = Instruction::Write.header(address);
    let b = word_to_bytes(value);
    Transaction { command: command_with_data(h, b.as_slice()), read_len: 0 }
}

/// Writes the single byte `data` at `address`.
pub fn write_register_byte_command(address: u16, data: u8) -> (r: Transaction)
    ensures
        r@ == write_register_byte_tx(address, data),
{
    let h = Instruction::Write.header(address);
    let b = [data];
    assert(b@ =~= seq![data]);
    Transaction { command: command_with_data(h, b.as_slice()), read_len: 0 }
}

/// The controller address of RAM offset `offset`.
pub fn ram_address_of(offset: u16) -> (r: u16)
    ensures
        r == ram_address(offset),
{
    RAM_START.wrapping_add(offset)
}

/// Reads `len` bytes of message RAM from offset `offset`; RAM is read in
/// whole 4-byte words.
pub fn read_bytes_command(offset: u16, len: usize) -> (r: Transaction)
    requires
        len % 4 == 0,
    ensures
        r@ == read_bytes_tx(offset, len as nat),
{
    let h = Instruction::Read.header(ram_address_of(offset));
    Transaction { command: command_with_data(h, &[]), read_len: len }
}

/// Writes `data` to message RAM at offset `offset`; RAM is written in whole
/// 4-byte words.
pub fn write_bytes_command(offset: u16, data: &[u8]) -> (r: Transaction)
    requires
        data@.len() % 4 == 0,
    ensures
        r@ == write_bytes_tx(offset, data@),
{
    let h = Instruction::Write.header(ram_address_of(offset));
    Transaction { command: command_with_data(h, data), read_len: 0 }
}

} // verus!
