//! The level that the game is playing, and what it holds.

use vstd::prelude::*;

use crate::address::Address;
use crate::consts::PVZ_LEVEL_SUN_OFFSET;
use crate::error::Error;
use crate::memory::{Memory, ReadReply, ReadRequest, WriteReply, WriteRequest};
use crate::plain::Plain;

verus! {

/// The level that the game is playing: its place in the memory of the game.
#[derive(Debug)]
pub struct Level<'a> {
    memory: &'a Memory,
    address: Address,
}

impl<'a> Level<'a> {
    /// Every field of the level has an address.
    #[verifier::type_invariant]
    closed spec fn fields_fit(self) -> bool {
        self.address@ + PVZ_LEVEL_SUN_OFFSET <= isize::MAX
    }

    pub closed spec fn spec_memory(&self) -> &'a Memory {
        self.memory
    }

    pub closed spec fn spec_address(&self) -> Address {
        self.address
    }

    /// The address of the sun count.
    pub open spec fn spec_sun_address(&self) -> Address {
        self.address().offset(PVZ_LEVEL_SUN_OFFSET)
    }

    /// The level at `address` in the process of `memory`. The address has to
    /// leave room for the fields of a level.
    pub fn new(memory: &'a Memory, address: Address) -> (level: Level<'a>)
        requires
            address@ + PVZ_LEVEL_SUN_OFFSET <= isize::MAX,
        ensures
            level.memory() == memory,
            level.address() == address,
    {
        Level { memory, address }
    }

    /// The accessor of the process that the level is in.
    #[verifier::when_used_as_spec(spec_memory)]
    pub fn memory(&self) -> (memory: &'a Memory)
        ensures
            memory == self.memory(),
    {
        self.memory
    }

    #[verifier::when_used_as_spec(spec_address)]
    pub fn address(&self) -> (address: Address)
        ensures
            address == self.address(),
    {
        self.address
    }

    #[verifier::when_used_as_spec(spec_sun_address)]
    pub fn sun_address(&self) -> (address: Address)
        ensures
            address == self.sun_address(),
            address@ == self.address()@ + PVZ_LEVEL_SUN_OFFSET,
    {
        proof {
            use_type_invariant(self);
        }
        self.address.offset(PVZ_LEVEL_SUN_OFFSET)
    }

    /// The value at `offset` in the level, from the answer to the read of it.
    fn read_offset<T: Plain>(&self, offset: isize, reply: &ReadReply) -> (result: Result<T, Error>)
        ensures
            reply.yields(self.memory().region::<T>(self.address().offset(offset)), result),
    {
        self.memory.read(&self.address.offset(offset), reply)
    }

    /// Whether `value` was written at `offset` in the level, from the answer
    /// to the write of it.
    fn write_offset<T: Plain>(&mut self, offset: isize, value: &T, reply: &WriteReply) -> (result:
        Result<(), Error>)
        ensures
            *final(self) == *old(self),
            reply.settles(
                old(self).memory().region::<T>(old(self).address().offset(offset)),
                value.bytes(),
                result,
            ),
    {
        let mut target = self.address.offset(offset);
        self.memory.write(&mut target, value, reply)
    }

    /// The read that gets the sun count.
    pub fn get_sun_request(&self) -> (request: ReadRequest)
        ensures
            request.region == self.memory().region::<i32>(self.sun_address()),
            request.buffer@ == Seq::new(4, |i: int| 0u8),
    {
        self.memory.read_request::<i32>(&self.sun_address())
    }

    /// The sun count, from the answer to `get_sun_request`.
    pub fn get_sun(&self, reply: &ReadReply) -> (result: Result<i32, Error>)
        ensures
            reply.yields(self.memory().region::<i32>(self.sun_address()), result),
    {
        self.read_offset::<i32>(PVZ_LEVEL_SUN_OFFSET, reply)
    }

    /// The write that sets the sun count to `value`.
    pub fn set_sun_request(&self, value: i32) -> (request: WriteRequest)
        ensures
            request.region == self.memory().region::<i32>(self.sun_address()),
            request.data@ == value.bytes(),
    {
        self.memory.write_request::<i32>(&self.sun_address(), &value)
    }

    /// Whether the sun count was set to `value`, from the answer to
    /// `set_sun_request`. The level is left as it is.
    pub fn set_sun(&mut self, value: i32, reply: &WriteReply) -> (result: Result<(), Error>)
        ensures
            *final(self) == *old(self),
            reply.settles(
                old(self).memory().region::<i32>(old(self).sun_address()),
                value.bytes(),
                result,
            ),
    {
        self.write_offset::<i32>(PVZ_LEVEL_SUN_OFFSET, &value, reply)
    }
}

} // verus!
