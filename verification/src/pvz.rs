//! The game, once its process is found and opened.

use vstd::prelude::*;

use crate::address::Address;
use crate::attach::Attach;
use crate::chain::{resolve, walk, Resolution, Step, Verdict};
use crate::consts::{PVZ_BASE_ADDRESS, PVZ_LEVEL_OFFSET, PVZ_LEVEL_SUN_OFFSET};
use crate::error::{Error, ErrorKind};
use crate::level::Level;
use crate::memory::Memory;
use crate::wstr::{encode_utf16, WStr};

verus! {

/// The running game: the accessor of its memory.
#[derive(Debug)]
pub struct PVZ {
    memory: Memory,
}

/// The chain that leads to the current level: the main structure stands where
/// the base address says, and holds the address of the level.
pub open spec fn level_steps() -> Seq<Step> {
    seq![Step::Dereference, Step::Offset(PVZ_LEVEL_OFFSET), Step::Dereference]
}

impl PVZ {
    pub closed spec fn spec_memory(&self) -> &Memory {
        &self.memory
    }

    pub open spec fn spec_get_pid(&self) -> u32 {
        self.memory().get_pid()
    }

    /// The game whose memory `memory` gives access to.
    pub(crate) fn over(memory: Memory) -> (pvz: PVZ)
        ensures
            *pvz.memory() == memory,
    {
        PVZ { memory }
    }

    /// Begins to attach to the process `pid`: full access to it is asked for
    /// next.
    pub fn new(pid: u32) -> (attach: Attach)
        ensures
            attach == (Attach::Opening { pid }),
    {
        Attach::Opening { pid }
    }

    /// Begins to attach to the running process whose executable is named
    /// `process_name`: the running processes are asked for next.
    pub fn new_with_process_name(process_name: &str) -> (attach: Attach)
        ensures
            attach matches Attach::Listing { process_name: name } && name@ == process_name@,
    {
        Attach::Listing { process_name: process_name.to_owned() }
    }

    /// Begins to attach to the process that owns the window with the title
    /// `window_title`: that window is asked for next, by the title as a wide
    /// string.
    pub fn new_with_window_title(window_title: &str) -> (attach: Attach)
        ensures
            attach matches Attach::Finding { window_title: title } && title@ == encode_utf16(
                window_title@,
            ).push(0),
    {
        Attach::Finding { window_title: WStr::new(window_title) }
    }

    /// Begins to start the executable at `executable_path` and to attach to
    /// it: the absolute path is asked for next.
    pub fn new_with_executable_path(executable_path: &str) -> (attach: Attach)
        ensures
            attach matches Attach::Resolving { executable_path: path } && path@
                == executable_path@,
    {
        Attach::Resolving { executable_path: executable_path.to_owned() }
    }

    #[verifier::when_used_as_spec(spec_get_pid)]
    pub fn get_pid(&self) -> (pid: u32)
        ensures
            pid == self.get_pid(),
    {
        self.memory.get_pid()
    }

    /// The accessor of the game's memory.
    #[verifier::when_used_as_spec(spec_memory)]
    pub fn memory(&self) -> (memory: &Memory)
        ensures
            memory == self.memory(),
    {
        &self.memory
    }

    /// Gives up the game and hands out the handle of its process, which is to
    /// be released now: nothing else holds it.
    pub fn release(self) -> (handle: isize)
        ensures
            handle == self.memory().handle(),
    {
        self.memory.release()
    }

    /// The level that the game is playing, as far as `reads` allows: `reads`
    /// holds the answers to the reads that were asked for so far, each the
    /// address read or the error of the read. While an address is still to be
    /// read, the result asks for it. Where no level is being played, or where
    /// the level would stand has no room for one, the level is not loaded; a
    /// read that failed because something was not loaded counts as that too,
    /// and any other failed read is the failure as it is.
    pub fn get_level(&self, reads: &[Result<Address, Error>]) -> (result: Resolution<Level<'_>>)
        ensures
            match walk(Address::new(PVZ_BASE_ADDRESS), level_steps(), reads@) {
                Verdict::Read(address) => result.asks(address),
                Verdict::Done(address) => if address@ + PVZ_LEVEL_SUN_OFFSET <= isize::MAX {
                    result matches Resolution::Done(level) && level.memory() == self.memory()
                        && level.address() == address
                } else {
                    result.not_loaded("关卡未启动"@)
                },
                Verdict::Null | Verdict::OutOfRange => result.not_loaded("关卡未启动"@),
                Verdict::Failed(error) => if error.kind == ErrorKind::NotLoaded {
                    result.not_loaded("关卡未启动"@)
                } else {
                    result.failed(error)
                },
            },
    {
        let steps = [Step::Dereference, Step::Offset(PVZ_LEVEL_OFFSET), Step::Dereference];
        match resolve(Address::new(PVZ_BASE_ADDRESS), steps.as_slice(), reads) {
            Resolution::Read(address) => Resolution::Read(address),
            Resolution::Done(address) => {
                if address.value() <= isize::MAX - PVZ_LEVEL_SUN_OFFSET {
                    Resolution::Done(Level::new(&self.memory, address))
                } else {
                    Resolution::Failed(Error::with_text(ErrorKind::NotLoaded, "关卡未启动"))
                }
            },
            Resolution::Failed(error) => {
                if error.kind == ErrorKind::NotLoaded {
                    Resolution::Failed(Error::with_text(ErrorKind::NotLoaded, "关卡未启动"))
                } else {
                    Resolution::Failed(error)
                }
            },
        }
    }
}

} // verus!
