//! Attaching to the game: the questions to put to the operating system, one
//! after the other, and what follows from each answer.

use vstd::prelude::*;

use crate::consts::{PVZ_PROCESS_NAME, PVZ_WINDOW_TITLE};
use crate::error::{Error, ErrorKind};
use crate::locator::{
    by_executable_path, by_process_name, by_window_title, found_by_launch, found_by_name,
    found_by_window, launch_request, launches, Canonical, LaunchRequest, ProcessEntry,
};
use crate::memory::Memory;
use crate::pvz::PVZ;
use crate::wstr::{encode_utf16, WStr};

verus! {

/// A question to the operating system.
#[derive(Debug)]
pub enum Request<'a> {
    /// Which processes are running?
    Snapshot,
    /// Which process owns the top-level window with exactly this title?
    FindWindow(&'a WStr),
    /// What is the absolute path of this executable?
    Canonicalize(&'a str),
    /// Start this.
    Launch(&'a LaunchRequest),
    /// Give full access to this process.
    Open(u32),
}

/// An answer of the operating system.
#[derive(Debug)]
pub enum Reply {
    /// The running processes in the order in which the system lists them, or
    /// its message.
    Snapshot(Result<Vec<ProcessEntry>, String>),
    /// The owner of the window, or zero.
    Window(u32),
    /// What the file system made of the path.
    Canonical(Canonical),
    /// The identifier of the new process, or the system's message.
    Launched(Result<u32, String>),
    /// The handle of the process, or the system's message.
    Opened(Result<isize, String>),
}

/// Attaching to the game, as far as it has come.
#[derive(Debug)]
pub enum Attach {
    /// The running process with this name is looked for.
    Listing { process_name: String },
    /// The owner of the window with this title is looked for.
    Finding { window_title: WStr },
    /// The executable at this path is to be started.
    Resolving { executable_path: String },
    /// The executable is being started.
    Launching { request: LaunchRequest },
    /// The process is known and is being opened.
    Opening { pid: u32 },
    /// Attached.
    Done(PVZ),
    /// Not attached.
    Failed(Error),
}

impl Attach {
    /// The process that was found, or the failure to find it.
    pub open spec fn found(&self) -> Result<u32, Error> {
        match *self {
            Attach::Opening { pid } => Ok(pid),
            Attach::Failed(error) => Err(error),
            _ => arbitrary(),
        }
    }

    /// The launch that was decided on, or the failure of the path.
    pub open spec fn launch(&self) -> Result<LaunchRequest, Error> {
        match *self {
            Attach::Launching { request } => Ok(request),
            Attach::Failed(error) => Err(error),
            _ => arbitrary(),
        }
    }

    /// What the answer to the request for full access to `pid` leads to: the
    /// game in that process with the handle given, or access denied with the
    /// system's message.
    pub open spec fn opened(&self, pid: u32, opened: Result<isize, String>) -> bool {
        match *self {
            Attach::Done(pvz) => opened == Ok::<isize, String>(pvz.memory().handle())
                && pvz.get_pid() == pid,
            Attach::Failed(error) => error.kind == ErrorKind::AccessDenied && opened == Err::<
                isize,
                String,
            >(error.message),
            _ => false,
        }
    }

    /// What `reply` leads to from here. An answer to the question that is
    /// open decides the next one, the game or the failure; any other answer
    /// changes nothing.
    pub open spec fn leads_to(&self, reply: Reply, next: Attach) -> bool {
        match (*self, reply) {
            (Attach::Listing { process_name }, Reply::Snapshot(snapshot)) => {
                &&& next is Opening || next is Failed
                &&& found_by_name(process_name@, snapshot, next.found())
            },
            (Attach::Finding { window_title }, Reply::Window(owner)) => {
                &&& next is Opening || next is Failed
                &&& found_by_window(owner, next.found())
            },
            (Attach::Resolving { executable_path }, Reply::Canonical(canonical)) => {
                &&& next is Launching || next is Failed
                &&& launches(canonical, next.launch())
            },
            (Attach::Launching { request }, Reply::Launched(launched)) => {
                &&& next is Opening || next is Failed
                &&& found_by_launch(launched, next.found())
            },
            (Attach::Opening { pid }, Reply::Opened(opened)) => next.opened(pid, opened),
            _ => next == *self,
        }
    }

    /// The question that is open, or none where attaching has ended.
    pub fn request(&self) -> (request: Option<Request<'_>>)
        ensures
            match *self {
                Attach::Listing { process_name } => request matches Some(Request::Snapshot),
                Attach::Finding { window_title } => request matches Some(
                    Request::FindWindow(title),
                ) && *title == window_title,
                Attach::Resolving { executable_path } => request matches Some(
                    Request::Canonicalize(path),
                ) && path@ == executable_path@,
                Attach::Launching { request: launch } => request matches Some(
                    Request::Launch(asked),
                ) && *asked == launch,
                Attach::Opening { pid } => request matches Some(Request::Open(asked)) && asked
                    == pid,
                Attach::Done(_) | Attach::Failed(_) => request is None,
            },
    {
        match self {
            Attach::Listing { process_name } => Some(Request::Snapshot),
            Attach::Finding { window_title } => Some(Request::FindWindow(window_title)),
            Attach::Resolving { executable_path } => Some(
                Request::Canonicalize(executable_path.as_str()),
            ),
            Attach::Launching { request } => Some(Request::Launch(request)),
            Attach::Opening { pid } => Some(Request::Open(*pid)),
            Attach::Done(_) => None,
            Attach::Failed(_) => None,
        }
    }

    /// Takes an answer of the operating system and goes on.
    pub fn advance(self, reply: Reply) -> (next: Attach)
        ensures
            self.leads_to(reply, next),
    {
        match (self, reply) {
            (Attach::Listing { process_name }, Reply::Snapshot(snapshot)) => {
                match by_process_name(process_name.as_str(), snapshot) {
                    Ok(pid) => Attach::Opening { pid },
                    Err(error) => Attach::Failed(error),
                }
            },
            (Attach::Finding { window_title }, Reply::Window(owner)) => {
                match by_window_title(owner) {
                    Ok(pid) => Attach::Opening { pid },
                    Err(error) => Attach::Failed(error),
                }
            },
            (Attach::Resolving { executable_path }, Reply::Canonical(canonical)) => {
                match launch_request(canonical) {
                    Ok(request) => Attach::Launching { request },
                    Err(error) => Attach::Failed(error),
                }
            },
            (Attach::Launching { request }, Reply::Launched(launched)) => {
                match by_executable_path(launched) {
                    Ok(pid) => Attach::Opening { pid },
                    Err(error) => Attach::Failed(error),
                }
            },
            (Attach::Opening { pid }, Reply::Opened(opened)) => {
                match Memory::new(pid, opened) {
                    Ok(memory) => Attach::Done(PVZ::over(memory)),
                    Err(error) => Attach::Failed(error),
                }
            },
            (unchanged, _) => unchanged,
        }
    }
}

/// One way to look for the running game.
#[derive(Debug)]
pub enum Lookup {
    /// By the file name of its executable.
    ProcessName(String),
    /// By the title of its window.
    WindowTitle(String),
}

/// What to do next when the game is looked for in several ways.
#[derive(Debug)]
pub enum Attempt<'a> {
    /// Attach in this way.
    Try(&'a Lookup),
    /// Every way has failed; the last failure.
    GiveUp(Error),
}

/// The usual plan: by the name of the game's executable, then by the title of
/// its window.
pub fn default_plan() -> (plan: Vec<Lookup>)
    ensures
        plan@.len() == 2,
        plan@[0] matches Lookup::ProcessName(name) && name@ == PVZ_PROCESS_NAME@,
        plan@[1] matches Lookup::WindowTitle(title) && title@ == PVZ_WINDOW_TITLE@,
{
    let mut plan: Vec<Lookup> = Vec::new();
    plan.push(Lookup::ProcessName(PVZ_PROCESS_NAME.to_owned()));
    plan.push(Lookup::WindowTitle(PVZ_WINDOW_TITLE.to_owned()));
    plan
}

/// The next attempt to attach. The ways of `plan` are tried in order, each
/// after the one before it has failed, in looking up or in opening; `failures`
/// holds the failures so far. When none is left the last failure is the
/// result, and a plan without any way finds nothing.
pub fn next_attempt<'a>(plan: &'a [Lookup], failures: &[Error]) -> (attempt: Attempt<'a>)
    ensures
        match attempt {
            Attempt::Try(lookup) => failures@.len() < plan@.len() && *lookup
                == plan@[failures@.len() as int],
            Attempt::GiveUp(error) => failures@.len() >= plan@.len() && if failures@.len() > 0 {
                error == failures@.last()
            } else {
                error.kind == ErrorKind::NotFound && error.message@ == "未指定查找方式"@
            },
        },
{
    let tried = failures.len();
    if tried < plan.len() {
        Attempt::Try(&plan[tried])
    } else if tried > 0 {
        Attempt::GiveUp(failures[tried - 1].duplicate())
    } else {
        Attempt::GiveUp(Error::with_text(ErrorKind::NotFound, "未指定查找方式"))
    }
}

impl Lookup {
    /// Begins to attach in this way.
    pub fn attach(&self) -> (attach: Attach)
        ensures
            match *self {
                Lookup::ProcessName(name) => attach matches Attach::Listing { process_name }
                    && process_name@ == name@,
                Lookup::WindowTitle(title) => attach matches Attach::Finding { window_title }
                    && window_title@ == encode_utf16(title@).push(0),
            },
    {
        match self {
            Lookup::ProcessName(name) => PVZ::new_with_process_name(name.as_str()),
            Lookup::WindowTitle(title) => PVZ::new_with_window_title(title.as_str()),
        }
    }
}

} // verus!
