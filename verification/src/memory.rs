//! The address space: 65,536 bytes, read and written one byte at a time or
//! as little-endian 16-bit words.

use vstd::prelude::*;

verus! {

/// Number of bytes in the address space: one for each 16-bit address.
pub const MEMORY_SIZE: usize = 0x1_0000;

/// The 16-bit word whose low byte is `low` and whose high byte is `high`.
pub open spec fn word_of(low: u8, high: u8) -> u16 {
    (low + 0x100 * high) as u16
}

/// The low byte of `word`.
pub open spec fn low_byte(word: u16) -> u8 {
    (word % 0x100) as u8
}

/// The high byte of `word`.
pub open spec fn high_byte(word: u16) -> u8 {
    (word / 0x100) as u8
}

/// The little-endian word that `memory` holds at `address` and `address + 1`.
pub open spec fn word_at(memory: Seq<u8>, address: int) -> u16
    recommends
        0 <= address,
        address + 1 < memory.len(),
{
    word_of(memory[address], memory[address + 1])
}

/// `memory` with `word` stored at `address`: low byte first, high byte at
/// `address + 1`.
pub open spec fn with_word(memory: Seq<u8>, address: int, word: u16) -> Seq<u8>
    recommends
        0 <= address,
        address + 1 < memory.len(),
{
    memory.update(address, low_byte(word)).update(address + 1, high_byte(word))
}

/// Round trip: a word stored at an address is the word read back from that
/// address, and the bytes elsewhere are untouched.
pub proof fn lemma_word_round_trip(memory: Seq<u8>, address: int, word: u16)
    requires
        0 <= address,
        address + 1 < memory.len(),
    ensures
        word_at(with_word(memory, address, word), address) == word,
        with_word(memory, address, word).len() == memory.len(),
        forall|i: int|
            0 <= i < memory.len() && i != address && i != address + 1 ==> with_word(
                memory,
                address,
                word,
            )[i] == memory[i],
{
}

/// The processor's memory.
#[derive(Debug, PartialEq, Eq)]
pub struct AddressSpace {
    bytes: [u8; 0x1_0000],
}

impl Clone for AddressSpace {
    fn clone(&self) -> (copy: Self)
        ensures
            copy == *self,
    {
        AddressSpace { bytes: self.bytes }
    }
}

impl View for AddressSpace {
    type V = Seq<u8>;

    closed spec fn view(&self) -> Seq<u8> {
        self.bytes@
    }
}

impl AddressSpace {
    /// The size never changes: there is a byte at every 16-bit address.
    pub proof fn lemma_size(&self)
        ensures
            self@.len() == MEMORY_SIZE,
    {
    }

    /// Memory with a zero at every address.
    pub fn new() -> (memory: AddressSpace)
        ensures
            memory@ == Seq::new(MEMORY_SIZE as nat, |i: int| 0u8),
    {
        AddressSpace { bytes: [0u8; 0x1_0000] }
    }

    /// The byte at `address`.
    pub fn read_byte(&self, address: u16) -> (value: u8)
        ensures
            self@.len() == MEMORY_SIZE,
            value == self@[address as int],
    {
        self.bytes[address as usize]
    }

    /// Stores `value` at `address`.
    pub fn write_byte(&mut self, address: u16, value: u8)
        ensures
            final(self)@ == old(self)@.update(address as int, value),
            final(self)@.len() == MEMORY_SIZE,
    {
        self.bytes[address as usize] = value;
    }

    /// The little-endian word at `address`. There is no word at `0xFFFF`:
    /// its high byte would lie outside the address space.
    pub fn read_u16(&self, address: u16) -> (word: u16)
        requires
            address < u16::MAX,
        ensures
            word == word_at(self@, address as int),
    {
        let low: u16 = self.read_byte(address) as u16;
        let high: u16 = self.read_byte(address + 1) as u16;
        assert(low | (high << 8) == low + 0x100 * high) by (bit_vector)
            requires
                low < 0x100,
                high < 0x100,
        ;
        low | (high << 8)
    }

    /// Stores `word` at `address`, low byte first, so that `read_u16` at
    /// `address` gives it back.
    pub fn write_u16(&mut self, address: u16, word: u16)
        requires
            address < u16::MAX,
        ensures
            final(self)@ == with_word(old(self)@, address as int, word),
            word_at(final(self)@, address as int) == word,
            final(self)@.len() == MEMORY_SIZE,
    {
        let low: u8 = (word & 0xFF) as u8;
        let high: u8 = (word >> 8) as u8;
        assert(word & 0xFF == word % 0x100) by (bit_vector);
        assert(word >> 8 == word / 0x100) by (bit_vector);
        self.write_byte(address, low);
        self.write_byte(address + 1, high);
        proof {
            old(self).lemma_size();
            lemma_word_round_trip(old(self)@, address as int, word);
        }
    }

    /// The whole memory as a slice, byte `i` at index `i`.
    pub fn as_slice(&self) -> (bytes: &[u8])
        ensures
            bytes@ == self@,
            bytes@.len() == MEMORY_SIZE,
    {
        self.bytes.as_slice()
    }
}

} // verus!
