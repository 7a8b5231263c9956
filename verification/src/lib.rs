//! Access to the memory of another running process: locating the process,
//! describing the reads and writes to make in its address space, and deciding
//! what each answer of the operating system means.
//!
//! The library performs no system call itself. Every operation comes in two
//! steps: a function that says exactly what to ask of the operating system, and
//! a function that takes the answer and yields the typed result or the error.
//!
//! - `address`: locations in the target's address space and their arithmetic.
//! - `wstr`: the wide strings that the operating system takes and gives.
//! - `plain`: values with a fixed layout in memory.
//! - `memory`: typed reads and writes through the handle of a process.
//! - `chain`: pointer chains, walked read by read.
//! - `locator`: from a name, a window or an executable to a process.
//! - `attach`: the questions and answers that lead to an opened process.
//! - `pvz`, `level`, `consts`: the game and the level it is playing.
//! - `error`: the failures.

pub mod address;
pub mod attach;
pub mod chain;
pub mod consts;
pub mod error;
pub mod level;
pub mod locator;
pub mod memory;
pub mod plain;
pub mod pvz;
pub mod wstr;

pub use address::Address;
pub use error::{Error, ErrorKind};
pub use level::Level;
pub use memory::Memory;
pub use pvz::PVZ;
pub use wstr::WStr;
