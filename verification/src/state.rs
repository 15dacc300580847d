//! The processor's state as a mathematical value.

use vstd::prelude::*;

verus! {

/// The registers and flags of the processor together with the abstract
/// contents `S` of the bus it is attached to. Contracts describe an
/// instruction as a function from one `Machine` to the next.
pub struct Machine<S> {
    /// The program counter.
    pub pc: u16,
    /// The stack pointer: an index into the stack page at `0x0100`.
    pub sp: u8,
    pub accumulator: u8,
    pub x: u8,
    pub y: u8,
    pub carry: bool,
    pub zero: bool,
    pub interrupt: bool,
    pub decimal: bool,
    pub brk: bool,
    pub overflow: bool,
    pub sign: bool,
    /// The abstract contents of the bus.
    pub memory: S,
}

/// A flag as a number: one when set, zero when clear.
pub open spec fn bit(flag: bool) -> int {
    if flag {
        1
    } else {
        0
    }
}

/// Whether bit 7 of `value` is set, that is, whether `value` is negative
/// when read as a two's-complement number.
pub open spec fn is_negative(value: u8) -> bool {
    value >= 0x80
}

impl<S> Machine<S> {
    /// This state with the zero and sign flags set from `value`: zero when
    /// `value` is zero, sign when bit 7 of `value` is set.
    pub open spec fn with_zero_sign(self, value: u8) -> Self {
        Machine { zero: value == 0, sign: is_negative(value), ..self }
    }
}

} // verus!
