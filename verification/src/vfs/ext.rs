//! The native CosmicOS file extensions.

use vstd::prelude::*;

verus! {

/// Executable application.
pub const APP: &'static str = "cosapp";
/// Binary or data file.
pub const BIN: &'static str = "cosbin";
/// Configuration.
pub const CFG: &'static str = "coscfg";
/// Link or shortcut.
pub const LNK: &'static str = "coslnk";
/// Text document.
pub const TXT: &'static str = "costxt";
/// Image.
pub const IMG: &'static str = "cosimg";
/// Package or installer.
pub const PKG: &'static str = "cospkg";
/// System file.
pub const SYS: &'static str = "cossys";
/// Log.
pub const LOG: &'static str = "coslog";
/// Library.
pub const LIB: &'static str = "coslib";

} // verus!
