//! The memory bus as the processor sees it: bytes and little-endian words
//! over a 16-bit address space.

use vstd::prelude::*;

verus! {

/// The word whose low byte is `low` and whose high byte is `high`.
pub open spec fn word_of(low: u8, high: u8) -> u16 {
    (low + 256 * high) as u16
}

/// The low byte of `word`.
pub open spec fn low_byte(word: u16) -> u8 {
    (word % 256) as u8
}

/// The high byte of `word`.
pub open spec fn high_byte(word: u16) -> u8 {
    (word / 256) as u8
}

/// A byte-addressable bus with a 16-bit address space.
///
/// A bus need not behave like plain storage: addresses may be mirrored or
/// mapped to device registers, so a byte written is not necessarily the byte
/// read back. What the processor relies on is that the bus is a deterministic
/// machine: its observable behaviour is a function of an abstract
/// [`State`](Memory::State), a read returns what [`load`](Memory::load) gives
/// for the current state and leaves the state alone, and a write moves the
/// bus to the state that [`store`](Memory::store) gives.
///
/// `State`, `state`, `load` and `store` exist for specifications only. No
/// compiled code calls them.
pub trait Memory {
    /// The abstract contents of the bus.
    type State;

    /// The abstract contents of this bus.
    spec fn state(&self) -> Self::State;

    /// The byte that a read of `addr` returns in `state`.
    spec fn load(state: Self::State, addr: u16) -> u8;

    /// The state that follows `state` when `value` is written to `addr`.
    spec fn store(state: Self::State, addr: u16, value: u8) -> Self::State;

    /// Reads the byte at `addr`.
    fn get_byte(&self, addr: u16) -> (value: u8)
        ensures
            value == Self::load(self.state(), addr),
    ;

    /// Writes `value` to `addr`.
    fn set_byte(&mut self, addr: u16, value: u8)
        ensures
            final(self).state() == Self::store(old(self).state(), addr, value),
    ;
}

/// The little-endian word that a read of `addr` and of the address after it
/// returns in `state`. The address after `0xFFFF` is `0x0000`.
pub open spec fn load_word<M: Memory>(state: M::State, addr: u16) -> u16 {
    word_of(M::load(state, addr), M::load(state, addr.wrapping_add(1)))
}

/// The state that follows `state` when `word` is written to `addr`: the low
/// byte goes to `addr` first, then the high byte to the address after it.
pub open spec fn store_word<M: Memory>(state: M::State, addr: u16, word: u16) -> M::State {
    M::store(M::store(state, addr, low_byte(word)), addr.wrapping_add(1), high_byte(word))
}

/// Splits `word` into its low and its high byte.
pub fn to_bytes(word: u16) -> (bytes: (u8, u8))
    ensures
        bytes.0 == low_byte(word),
        bytes.1 == high_byte(word),
{
    let low: u8 = #[verifier::truncate] (word as u8);
    let high: u8 = #[verifier::truncate] ((word >> 8) as u8);
    assert(low == low_byte(word) && high == high_byte(word)) by (bit_vector)
        requires
            low == word as u8,
            high == (word >> 8) as u8,
    ;
    (low, high)
}

/// Reads the little-endian word at `addr`: the low byte first, then the high
/// byte from the address after it.
pub fn get_word<M: Memory>(memory: &M, addr: u16) -> (word: u16)
    ensures
        word == load_word::<M>(memory.state(), addr),
{
    let low: u8 = memory.get_byte(addr);
    let high: u8 = memory.get_byte(addr.wrapping_add(1));
    let word: u16 = (low as u16) | ((high as u16) << 8);
    assert(word == word_of(low, high)) by (bit_vector)
        requires
            word == (low as u16) | ((high as u16) << 8),
    ;
    word
}

/// Writes `word` at `addr` in little-endian order: the low byte to `addr`,
/// then the high byte to the address after it.
pub fn set_word<M: Memory>(memory: &mut M, addr: u16, word: u16)
    ensures
        final(memory).state() == store_word::<M>(old(memory).state(), addr, word),
{
    let (low, high) = to_bytes(word);
    memory.set_byte(addr, low);
    memory.set_byte(addr.wrapping_add(1), high);
}

/// 64 KiB of plain storage: every address holds the byte last written to it.
pub struct Ram {
    /// The byte at each address.
    pub bytes: [u8; 65536],
}

impl View for Ram {
    type V = Seq<u8>;

    open spec fn view(&self) -> Seq<u8> {
        self.bytes@
    }
}

impl Ram {
    /// Storage with every byte zero.
    pub fn new() -> (ram: Self)
        ensures
            ram@ == Seq::new(65536, |addr: int| 0u8),
    {
        Ram { bytes: [0u8; 65536] }
    }
}

impl Memory for Ram {
    type State = Seq<u8>;

    open spec fn state(&self) -> Seq<u8> {
        self@
    }

    open spec fn load(state: Seq<u8>, addr: u16) -> u8 {
        state[addr as int]
    }

    open spec fn store(state: Seq<u8>, addr: u16, value: u8) -> Seq<u8> {
        state.update(addr as int, value)
    }

    fn get_byte(&self, addr: u16) -> (value: u8) {
        self.bytes[addr as usize]
    }

    fn set_byte(&mut self, addr: u16, value: u8) {
        self.bytes[addr as usize] = value;
    }
}

} // verus!
