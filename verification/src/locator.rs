//! Finding the target process: what each answer of the operating system means
//! for the process identifier that is looked for.

use vstd::prelude::*;
use vstd::string::StringExecFns;

use crate::error::{Error, ErrorKind};
use crate::wstr::{encode_utf16, WStr};

verus! {

/// One running process, as the system's snapshot lists it.
#[derive(Debug)]
pub struct ProcessEntry {
    /// The process identifier.
    pub pid: u32,
    /// The file name of the executable, in the system's fixed buffer.
    pub exe_file: WStr,
}

impl ProcessEntry {
    /// The file name of the executable as text.
    pub open spec fn name(&self) -> Seq<char> {
        self.exe_file.text()
    }
}

/// Entry `i` bears the name, and none before it does.
pub open spec fn is_first_match(entries: Seq<ProcessEntry>, name: Seq<char>, i: int) -> bool {
    &&& 0 <= i < entries.len()
    &&& entries[i].name() == name
    &&& forall|j: int| 0 <= j < i ==> entries[j].name() != name
}

/// Some entry bears the name.
pub open spec fn has_match(entries: Seq<ProcessEntry>, name: Seq<char>) -> bool {
    exists|i: int| 0 <= i < entries.len() && (#[trigger] entries[i]).name() == name
}

/// `found` is what the snapshot says of the process named `name`: the process
/// of the first entry that bears the name, letter for letter; not found where
/// none does; and where the snapshot could not be taken, not found with the
/// system's message.
pub open spec fn found_by_name(
    name: Seq<char>,
    snapshot: Result<Vec<ProcessEntry>, String>,
    found: Result<u32, Error>,
) -> bool {
    match found {
        Ok(pid) => snapshot matches Ok(entries) && exists|i: int|
            #[trigger] is_first_match(entries@, name, i) && entries@[i].pid == pid,
        Err(error) => error.kind == ErrorKind::NotFound && match snapshot {
            Ok(entries) => !has_match(entries@, name) && error.message@
                == "未找到符合名称的进程"@,
            Err(message) => error.message == message,
        },
    }
}

/// `found` is what the owner of a window says of the process looked for: the
/// owner, or not found where the owner is zero.
pub open spec fn found_by_window(owner: u32, found: Result<u32, Error>) -> bool {
    match found {
        Ok(pid) => owner != 0 && pid == owner,
        Err(error) => owner == 0 && error.kind == ErrorKind::NotFound && error.message@
            == "未找到符合名称的窗口"@,
    }
}

/// `found` is what the answer to a launch says of the new process: its
/// identifier, or the failure of the launch with the system's message.
pub open spec fn found_by_launch(launched: Result<u32, String>, found: Result<u32, Error>) -> bool {
    match found {
        Ok(pid) => launched == Ok::<u32, String>(pid),
        Err(error) => error.kind == ErrorKind::LaunchFailed && launched == Err::<u32, String>(
            error.message,
        ),
    }
}

/// The process whose executable is named `process_name`, letter for letter,
/// among those that the snapshot lists: the first such entry decides. Where
/// the snapshot could not be taken, its message is the failure.
pub fn by_process_name(process_name: &str, snapshot: Result<Vec<ProcessEntry>, String>) -> (found:
    Result<u32, Error>)
    ensures
        found_by_name(process_name@, snapshot, found),
{
    match snapshot {
        Err(message) => Err(Error::new(ErrorKind::NotFound, message)),
        Ok(entries) => {
            let wanted = process_name.to_owned();
            let mut i: usize = 0;
            while i < entries.len()
                invariant
                    i <= entries.len(),
                    snapshot == Ok::<Vec<ProcessEntry>, String>(entries),
                    wanted@ == process_name@,
                    forall|j: int| 0 <= j < i ==> entries@[j].name() != process_name@,
                decreases entries.len() - i,
            {
                let name = entries[i].exe_file.to_string();
                if name == wanted {
                    assert(is_first_match(entries@, process_name@, i as int));
                    let pid = entries[i].pid;
                    assert(snapshot matches Ok(held) && held == entries);
                    return Ok(pid);
                }
                i += 1;
            }
            Err(Error::with_text(ErrorKind::NotFound, "未找到符合名称的进程"))
        },
    }
}

/// The process that owns the window that was looked up by its title, given the
/// owner that the system reported: zero where there is no such window or it
/// has no owner.
pub fn by_window_title(owner: u32) -> (found: Result<u32, Error>)
    ensures
        found_by_window(owner, found),
{
    if owner != 0 {
        Ok(owner)
    } else {
        Err(Error::with_text(ErrorKind::NotFound, "未找到符合名称的窗口"))
    }
}

/// What the file system made of the path of an executable.
#[derive(Debug)]
pub enum Canonical {
    /// The path does not resolve; the system's message.
    Failed(String),
    /// The path resolves to one that is not text; that path, for display.
    NotText(String),
    /// The absolute path.
    Text(String),
}

/// What to start: the command line and the working directory.
#[derive(Debug)]
pub struct LaunchRequest {
    pub command: WStr,
    pub directory: WStr,
}

/// `request` is the launch of the executable at `path` in `directory`, the
/// directory that holds it; without a directory the path is invalid.
pub open spec fn launches_in(
    path: Seq<char>,
    directory: Option<Seq<char>>,
    request: Result<LaunchRequest, Error>,
) -> bool {
    match directory {
        Some(held) => request matches Ok(made) && made.command@ == encode_utf16(path).push(0)
            && made.directory@ == encode_utf16(held).push(0),
        None => request matches Err(error) && error.kind == ErrorKind::InvalidPath
            && error.message@ == "获取目录失败"@,
    }
}

/// The text of a directory, where there is one.
pub open spec fn text_of(directory: Option<&str>) -> Option<Seq<char>> {
    match directory {
        Some(held) => Some(held@),
        None => None,
    }
}

/// The directory that holds the file at `path`, as `Path::parent` of std gives
/// it for a path that is text: the path without its last component, or none
/// where it has no such component. What counts as a component is a matter of
/// the platform that the library is built for; on given text the answer is
/// always the same.
pub uninterp spec fn parent_text(path: Seq<char>) -> Option<Seq<char>>;

/// `request` is the launch that fits what the file system made of the path.
/// An absolute path that has a directory is started there, under its own name
/// as the command line. A path that does not resolve, is not text or has no
/// directory is invalid, with the message that says which.
pub open spec fn launches(canonical: Canonical, request: Result<LaunchRequest, Error>) -> bool {
    match canonical {
        Canonical::Failed(message) => request matches Err(error) && error.kind
            == ErrorKind::InvalidPath && error.message == message,
        Canonical::NotText(shown) => request matches Err(error) && error.kind
            == ErrorKind::InvalidPath && error.message@ == "无效路径："@ + shown@,
        Canonical::Text(path) => launches_in(path@, parent_text(path@), request),
    }
}

/// `Path::parent` of std, on a path that is text, with `Path::new` and
/// `Path::to_str` to get from text and back: the path without its last
/// component, where it has one. The result is `parent_text` of the path.
#[verifier::external_body]
fn parent_of(path: &str) -> (directory: Option<&str>)
    ensures
        match directory {
            Some(held) => parent_text(path@) == Some(held@),
            None => parent_text(path@) is None,
        },
{
    std::path::Path::new(path).parent().and_then(std::path::Path::to_str)
}

/// The launch of the executable at `path`, started in `directory`, the
/// directory that holds it.
pub fn launch_request_in(path: &str, directory: Option<&str>) -> (request: Result<
    LaunchRequest,
    Error,
>)
    ensures
        launches_in(path@, text_of(directory), request),
{
    match directory {
        Some(held) => Ok(LaunchRequest { command: WStr::new(path), directory: WStr::new(held) }),
        None => Err(Error::with_text(ErrorKind::InvalidPath, "获取目录失败")),
    }
}

/// The launch of an executable, from what the file system made of its path.
/// The executable is started in the directory that holds it, which is the
/// parent of the absolute path.
pub fn launch_request(canonical: Canonical) -> (request: Result<LaunchRequest, Error>)
    ensures
        launches(canonical, request),
{
    match canonical {
        Canonical::Failed(message) => Err(Error::new(ErrorKind::InvalidPath, message)),
        Canonical::NotText(shown) => {
            let message = String::from_str("无效路径：").concat(shown.as_str());
            Err(Error::new(ErrorKind::InvalidPath, message))
        },
        Canonical::Text(path) => {
            let directory = parent_of(path.as_str());
            launch_request_in(path.as_str(), directory)
        },
    }
}

/// The process that a launch started, given the system's answer: the new
/// process identifier, or the message of the failure.
pub fn by_executable_path(launched: Result<u32, String>) -> (found: Result<u32, Error>)
    ensures
        found_by_launch(launched, found),
{
    match launched {
        Ok(pid) => Ok(pid),
        Err(message) => Err(Error::new(ErrorKind::LaunchFailed, message)),
    }
}

} // verus!
