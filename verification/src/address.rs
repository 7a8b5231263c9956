//! A location in the address space of the target process.

use vstd::prelude::*;
use vstd::std_specs::convert::FromSpecImpl;

use crate::error::Error;
use crate::memory::{Memory, ReadReply, WriteReply};
use crate::plain::Plain;

verus! {

/// A location in the target's address space. It is a plain number: arithmetic
/// on it touches no memory. Its view is the location.
#[derive(Debug, Clone, Copy, PartialEq, Eq, Structural)]
pub struct Address(pub isize);

impl View for Address {
    type V = int;

    open spec fn view(&self) -> int {
        self.0 as int
    }
}

impl Address {
    pub open spec fn spec_new(address: isize) -> Address {
        Address(address)
    }

    pub open spec fn spec_is_null(&self) -> bool {
        self@ == 0
    }

    pub open spec fn spec_as_bool(&self) -> bool {
        self@ != 0
    }

    pub open spec fn spec_offset(&self, offset: isize) -> Address {
        Address(self.0.wrapping_add(offset))
    }

    #[verifier::when_used_as_spec(spec_new)]
    pub fn new(address: isize) -> (result: Address)
        ensures
            result == Address::new(address),
            result@ == address,
    {
        Address(address)
    }

    /// The location as a number, for the system call that takes it.
    pub fn value(&self) -> (location: isize)
        ensures
            location == self@,
            *self == Address::new(location),
    {
        self.0
    }

    #[verifier::when_used_as_spec(spec_is_null)]
    pub fn is_null(&self) -> (null: bool)
        ensures
            null == self.is_null(),
            null == (self@ == 0),
    {
        self.0 == 0
    }

    #[verifier::when_used_as_spec(spec_as_bool)]
    pub fn as_bool(&self) -> (present: bool)
        ensures
            present == self.as_bool(),
            present == (self@ != 0),
    {
        !self.is_null()
    }

    /// The address `offset` bytes further on (before, where `offset` is
    /// negative). The address space is a ring: a shift past one end goes on
    /// from the other, so every shift has a result.
    #[verifier::when_used_as_spec(spec_offset)]
    pub fn offset(&self, offset: isize) -> (result: Address)
        ensures
            result == self.offset(offset),
            isize::MIN <= self@ + offset <= isize::MAX ==> result@ == self@ + offset,
            self@ + offset > isize::MAX ==> result@ == self@ + offset - (usize::MAX + 1),
            self@ + offset < isize::MIN ==> result@ == self@ + offset + (usize::MAX + 1),
    {
        Address(self.0.wrapping_add(offset))
    }

    /// The value at this address in the process of `memory`, from the answer
    /// to `memory.read_request` for it.
    pub fn read_from<T: Plain>(&self, memory: &Memory, reply: &ReadReply) -> (result: Result<
        T,
        Error,
    >)
        ensures
            reply.yields(memory.region::<T>(*self), result),
    {
        memory.read(self, reply)
    }

    /// Whether `value` was written at this address in the process of
    /// `memory`, from the answer to `memory.write_request` for it. The address
    /// is left as it is.
    pub fn write_to<T: Plain>(&mut self, memory: &Memory, value: &T, reply: &WriteReply) -> (result:
        Result<(), Error>)
        ensures
            *final(self) == *old(self),
            reply.settles(memory.region::<T>(*old(self)), value.bytes(), result),
    {
        memory.write(self, value, reply)
    }

    /// The address that the four bytes at this address hold, from the answer
    /// to `memory.read_request::<i32>` for it.
    pub fn read_address_from(&self, memory: &Memory, reply: &ReadReply) -> (result: Result<
        Address,
        Error,
    >)
        ensures
            reply.yields_address(memory.region::<i32>(*self), result),
    {
        memory.read_address(self, reply)
    }

    /// Shifting by `first` and then by `second` reaches the address that one
    /// shift by their sum reaches, for every address and every two offsets.
    /// The sum of two offsets is an offset on the same ring: where it fits it
    /// is the plain sum.
    pub proof fn lemma_offset_adds(a: Address, first: isize, second: isize)
        ensures
            a.offset(first).offset(second) == a.offset(first.wrapping_add(second)),
            isize::MIN <= first + second <= isize::MAX ==> a.offset(first).offset(second)
                == a.offset((first + second) as isize),
    {
    }

    /// The address zero is null, and shifted by `n` it is null exactly when
    /// `n` is zero.
    pub proof fn lemma_null_offset(n: isize)
        ensures
            Address::new(0).is_null(),
            Address::new(0).offset(n).is_null() <==> n == 0,
    {
    }
}

impl From<i32> for Address {
    fn from(address: i32) -> (result: Address) {
        Address(address as isize)
    }
}

impl FromSpecImpl<i32> for Address {
    open spec fn obeys_from_spec() -> bool {
        true
    }

    open spec fn from_spec(address: i32) -> Address {
        Address::new(address as isize)
    }
}

impl From<isize> for Address {
    fn from(address: isize) -> (result: Address) {
        Address(address)
    }
}

impl FromSpecImpl<isize> for Address {
    open spec fn obeys_from_spec() -> bool {
        true
    }

    open spec fn from_spec(address: isize) -> Address {
        Address::new(address)
    }
}

} // verus!
