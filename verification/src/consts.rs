//! Where the game keeps what this library reads: fixed for one build of the
//! game.

use vstd::prelude::*;

verus! {

/// The file name of the game's executable.
pub const PVZ_PROCESS_NAME: &'static str = "PlantsVsZombies.exe";

/// The title of the game's window.
pub const PVZ_WINDOW_TITLE: &'static str = "Plants vs. Zombies";

/// The address that holds the address of the game's main structure.
pub const PVZ_BASE_ADDRESS: isize = 0x6A9EC0;

/// Where, in the main structure, the address of the current level stands.
pub const PVZ_LEVEL_OFFSET: isize = 0x768;

/// Where, in the level, the sun count stands.
pub const PVZ_LEVEL_SUN_OFFSET: isize = 0x5560;

} // verus!
