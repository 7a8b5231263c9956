//! Values that have a fixed size and a fixed layout in the target's memory.

use vstd::prelude::*;

verus! {

/// A value with a fixed number of bytes and a fixed layout, so that it can be
/// copied to and from the memory of the target as it stands. Whether the
/// target holds a value of this type at a given address is for the caller to
/// know: nothing here can tell.
pub trait Plain: Sized {
    /// The number of bytes of every value.
    spec fn size() -> nat;

    /// The bytes of the value, in the order they have in memory.
    spec fn bytes(&self) -> Seq<u8>;

    /// The value that `bytes` stand for.
    spec fn of_bytes(bytes: Seq<u8>) -> Self;

    /// Every value has `size` bytes, a number that a machine can hold, and
    /// reading the bytes of a value gives the value.
    proof fn lemma_layout(&self)
        ensures
            Self::size() <= usize::MAX,
            self.bytes().len() == Self::size(),
            Self::of_bytes(self.bytes()) == *self,
    ;

    fn size_of() -> (size: usize)
        ensures
            size == Self::size(),
    ;

    fn to_bytes(&self) -> (bytes: Vec<u8>)
        ensures
            bytes@ == self.bytes(),
    ;

    fn from_bytes(bytes: &[u8]) -> (value: Self)
        requires
            bytes@.len() == Self::size(),
        ensures
            value == Self::of_bytes(bytes@),
    ;
}

/// The number below 2^32 that stands for `value` in two's complement.
pub open spec fn unsigned_of(value: i32) -> int {
    if value < 0 {
        value + 0x1_0000_0000
    } else {
        value as int
    }
}

/// The number that `unsigned`, below 2^32, stands for in two's complement.
pub open spec fn signed_of(unsigned: int) -> i32 {
    if unsigned >= 0x8000_0000 {
        (unsigned - 0x1_0000_0000) as i32
    } else {
        unsigned as i32
    }
}

/// Four bytes, the lowest first, in two's complement: the layout of a 32-bit
/// integer in the processes this library is for.
impl Plain for i32 {
    open spec fn size() -> nat {
        4
    }

    open spec fn bytes(&self) -> Seq<u8> {
        let unsigned = unsigned_of(*self);
        seq![
            (unsigned % 0x100) as u8,
            (unsigned / 0x100 % 0x100) as u8,
            (unsigned / 0x1_0000 % 0x100) as u8,
            (unsigned / 0x100_0000) as u8,
        ]
    }

    open spec fn of_bytes(bytes: Seq<u8>) -> i32 {
        signed_of(bytes[0] + 0x100 * bytes[1] + 0x1_0000 * bytes[2] + 0x100_0000 * bytes[3])
    }

    proof fn lemma_layout(&self) {
        let unsigned = unsigned_of(*self);
        let bytes = self.bytes();
        assert(bytes[0] + 0x100 * bytes[1] + 0x1_0000 * bytes[2] + 0x100_0000 * bytes[3]
            == unsigned);
    }

    fn size_of() -> (size: usize) {
        4
    }

    fn to_bytes(&self) -> (bytes: Vec<u8>) {
        let unsigned: u32 = if *self < 0 {
            (*self as i64 + 0x1_0000_0000) as u32
        } else {
            *self as u32
        };
        let mut bytes: Vec<u8> = Vec::new();
        bytes.push((unsigned % 0x100) as u8);
        bytes.push((unsigned / 0x100 % 0x100) as u8);
        bytes.push((unsigned / 0x1_0000 % 0x100) as u8);
        bytes.push((unsigned / 0x100_0000) as u8);
        bytes
    }

    fn from_bytes(bytes: &[u8]) -> (value: i32) {
        let unsigned: u32 = bytes[0] as u32 + 0x100 * (bytes[1] as u32)
            + 0x1_0000 * (bytes[2] as u32) + 0x100_0000 * (bytes[3] as u32);
        if unsigned >= 0x8000_0000 {
            (unsigned as i64 - 0x1_0000_0000) as i32
        } else {
            unsigned as i32
        }
    }
}

} // verus!
