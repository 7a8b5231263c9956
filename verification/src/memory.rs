//! The accessor of one process's memory: what to ask of the operating system
//! for a typed read or write, and what its answer means.

use vstd::prelude::*;

use crate::address::Address;
use crate::error::{Error, ErrorKind};
use crate::plain::Plain;

verus! {

/// The bytes of one process that a single read or write touches.
#[derive(Debug, Clone, Copy, PartialEq, Eq, Structural)]
pub struct Region {
    /// The handle of the process.
    pub handle: isize,
    /// Where the bytes start.
    pub address: Address,
    /// How many they are.
    pub size: usize,
}

/// One read to ask of the operating system: `region.size` bytes from
/// `region.address` into `buffer`.
#[derive(Debug)]
pub struct ReadRequest {
    pub region: Region,
    /// The destination, as long as the region and zeroed.
    pub buffer: Vec<u8>,
}

/// The answer to a read.
#[derive(Debug)]
pub struct ReadReply {
    /// The region that was asked for.
    pub region: Region,
    /// The number of bytes that arrived, or the system's message.
    pub moved: Result<usize, String>,
    /// The destination after the call.
    pub buffer: Vec<u8>,
}

/// One write to ask of the operating system: `data` to `region.address`.
#[derive(Debug)]
pub struct WriteRequest {
    pub region: Region,
    pub data: Vec<u8>,
}

/// The answer to a write.
#[derive(Debug)]
pub struct WriteReply {
    /// The region that was asked for.
    pub region: Region,
    /// The bytes that were handed over.
    pub data: Vec<u8>,
    /// The number of bytes that were stored, or the system's message.
    pub moved: Result<usize, String>,
}

impl ReadReply {
    /// The reply answers a read of `region`, and every byte arrived.
    pub open spec fn complete(&self, region: Region) -> bool {
        &&& self.region == region
        &&& self.moved == Ok::<usize, String>(region.size)
        &&& self.buffer@.len() == region.size
    }

    /// `error` is the failure that this reply to a read of `region` stands for.
    pub open spec fn fails_with(&self, region: Region, error: Error) -> bool {
        &&& !self.complete(region)
        &&& error.kind == ErrorKind::ReadFailed
        &&& error.message@ == if self.region != region {
            "应答与请求不符"@
        } else {
            match self.moved {
                Err(message) => message@,
                Ok(_) => "读取的字节数不足"@,
            }
        }
    }

    /// `result` is what this reply to a read of a `T` in `region` gives: the
    /// value of the bytes where the reply is complete, and else the failure.
    pub open spec fn yields<T: Plain>(&self, region: Region, result: Result<T, Error>) -> bool {
        match result {
            Ok(value) => self.complete(region) && value == T::of_bytes(self.buffer@),
            Err(error) => self.fails_with(region, error),
        }
    }

    /// `result` is what this reply to a read of four bytes in `region` gives,
    /// taken as an address.
    pub open spec fn yields_address(&self, region: Region, result: Result<Address, Error>) -> bool {
        match result {
            Ok(target) => self.complete(region) && target == Address::new(
                i32::of_bytes(self.buffer@) as isize,
            ),
            Err(error) => self.fails_with(region, error),
        }
    }
}

impl WriteReply {
    /// The reply answers a write of `data` to `region`, and every byte was
    /// stored.
    pub open spec fn complete(&self, region: Region, data: Seq<u8>) -> bool {
        &&& self.region == region
        &&& self.data@ == data
        &&& self.moved == Ok::<usize, String>(region.size)
    }

    /// `error` is the failure that this reply to a write of `data` to
    /// `region` stands for.
    pub open spec fn fails_with(&self, region: Region, data: Seq<u8>, error: Error) -> bool {
        &&& !self.complete(region, data)
        &&& error.kind == ErrorKind::WriteFailed
        &&& error.message@ == if self.region != region || self.data@ != data {
            "应答与请求不符"@
        } else {
            match self.moved {
                Err(message) => message@,
                Ok(_) => "写入的字节数不足"@,
            }
        }
    }

    /// `result` is what this reply to a write of `data` to `region` gives:
    /// done where the reply is complete, and else the failure.
    pub open spec fn settles(&self, region: Region, data: Seq<u8>, result: Result<(), Error>) -> bool {
        match result {
            Ok(()) => self.complete(region, data),
            Err(error) => self.fails_with(region, data, error),
        }
    }
}

/// The accessor of one process's memory. It holds the handle that the
/// operating system gave for the process.
#[derive(Debug)]
pub struct Memory {
    pid: u32,
    process_handle: isize,
}

impl Memory {
    pub closed spec fn spec_get_pid(&self) -> u32 {
        self.pid
    }

    pub closed spec fn spec_handle(&self) -> isize {
        self.process_handle
    }

    /// The bytes that a value of type `T` at `address` takes in this process.
    pub open spec fn region<T: Plain>(&self, address: Address) -> Region {
        Region { handle: self.handle(), address, size: T::size() as usize }
    }

    /// The accessor of process `pid`, from the answer to the request for full
    /// access to it: the handle, or the message of the refusal.
    pub fn new(pid: u32, opened: Result<isize, String>) -> (result: Result<Memory, Error>)
        ensures
            match result {
                Ok(memory) => opened == Ok::<isize, String>(memory.handle()) && memory.get_pid()
                    == pid,
                Err(error) => error.kind == ErrorKind::AccessDenied && opened == Err::<
                    isize,
                    String,
                >(error.message),
            },
    {
        match opened {
            Ok(process_handle) => Ok(Memory { pid, process_handle }),
            Err(message) => Err(Error::new(ErrorKind::AccessDenied, message)),
        }
    }

    #[verifier::when_used_as_spec(spec_get_pid)]
    pub fn get_pid(&self) -> (pid: u32)
        ensures
            pid == self.get_pid(),
    {
        self.pid
    }

    /// The handle, for the system calls and for its release.
    #[verifier::when_used_as_spec(spec_handle)]
    pub fn handle(&self) -> (handle: isize)
        ensures
            handle == self.handle(),
    {
        self.process_handle
    }

    /// Gives up the accessor and hands out its handle, which is to be released
    /// now: nothing else holds it.
    pub fn release(self) -> (handle: isize)
        ensures
            handle == self.handle(),
    {
        self.process_handle
    }

    /// The one read that gets a `T` from `address`: as many bytes as a `T`
    /// has, into a zeroed destination.
    pub fn read_request<T: Plain>(&self, address: &Address) -> (request: ReadRequest)
        ensures
            request.region == self.region::<T>(*address),
            request.buffer@ == Seq::new(T::size(), |i: int| 0u8),
    {
        let size = T::size_of();
        let mut buffer: Vec<u8> = Vec::new();
        while buffer.len() < size
            invariant
                buffer.len() <= size,
                forall|i: int| 0 <= i < buffer.len() ==> buffer@[i] == 0u8,
            decreases size - buffer.len(),
        {
            buffer.push(0);
        }
        ReadRequest {
            region: Region { handle: self.process_handle, address: *address, size },
            buffer,
        }
    }

    /// The value at `address`, from the answer to `read_request`. A reply to
    /// another request, a failure of the system or a byte that did not arrive
    /// makes the read fail; no value is made of part of the bytes.
    pub fn read<T: Plain>(&self, address: &Address, reply: &ReadReply) -> (result: Result<T, Error>)
        ensures
            reply.yields(self.region::<T>(*address), result),
    {
        let size = T::size_of();
        let region = Region { handle: self.process_handle, address: *address, size };
        if reply.region != region {
            return Err(Error::with_text(ErrorKind::ReadFailed, "应答与请求不符"));
        }
        match &reply.moved {
            Err(message) => Err(Error::new(ErrorKind::ReadFailed, message.clone())),
            Ok(moved) => {
                if *moved == size && reply.buffer.len() == size {
                    Ok(T::from_bytes(reply.buffer.as_slice()))
                } else {
                    Err(Error::with_text(ErrorKind::ReadFailed, "读取的字节数不足"))
                }
            },
        }
    }

    /// The one write that puts `value` at `address`: the bytes of the value.
    pub fn write_request<T: Plain>(&self, address: &Address, value: &T) -> (request: WriteRequest)
        ensures
            request.region == self.region::<T>(*address),
            request.data@ == value.bytes(),
    {
        let size = T::size_of();
        proof {
            value.lemma_layout();
        }
        WriteRequest {
            region: Region { handle: self.process_handle, address: *address, size },
            data: value.to_bytes(),
        }
    }

    /// Whether `value` was written at `address`, from the answer to
    /// `write_request`. A reply to another request, a failure of the system or
    /// a byte that was not stored makes the write fail. The address is left as
    /// it is.
    pub fn write<T: Plain>(&self, address: &mut Address, value: &T, reply: &WriteReply) -> (result:
        Result<(), Error>)
        ensures
            *final(address) == *old(address),
            reply.settles(self.region::<T>(*old(address)), value.bytes(), result),
    {
        let size = T::size_of();
        let region = Region { handle: self.process_handle, address: *address, size };
        let bytes = value.to_bytes();
        let same_data = reply.data == bytes;
        assert(same_data <==> reply.data@ =~= value.bytes());
        if reply.region != region || !same_data {
            return Err(Error::with_text(ErrorKind::WriteFailed, "应答与请求不符"));
        }
        match &reply.moved {
            Err(message) => Err(Error::new(ErrorKind::WriteFailed, message.clone())),
            Ok(moved) => {
                if *moved == size {
                    Ok(())
                } else {
                    Err(Error::with_text(ErrorKind::WriteFailed, "写入的字节数不足"))
                }
            },
        }
    }

    /// The address that the four bytes at `address` hold, from the answer to
    /// `read_request::<i32>`.
    pub fn read_address(&self, address: &Address, reply: &ReadReply) -> (result: Result<
        Address,
        Error,
    >)
        ensures
            reply.yields_address(self.region::<i32>(*address), result),
    {
        match self.read::<i32>(address, reply) {
            Ok(value) => Ok(Address::from(value)),
            Err(error) => Err(error),
        }
    }

    /// A read that finds the bytes that a write has put there gives the value
    /// that was written: nothing is lost between a value and its bytes. Here
    /// `written` is the answer to the write of `value` at `address`, and
    /// `reply` the answer to a read of the same place that found those bytes.
    pub proof fn lemma_read_after_write<T: Plain>(
        &self,
        address: Address,
        value: T,
        written: WriteReply,
        reply: ReadReply,
    )
        requires
            written.complete(self.region::<T>(address), value.bytes()),
            reply.region == written.region,
            reply.moved == written.moved,
            reply.buffer@ == written.data@,
        ensures
            reply.yields(self.region::<T>(address), Ok::<T, Error>(value)),
    {
        value.lemma_layout();
    }
}

} // verus!
