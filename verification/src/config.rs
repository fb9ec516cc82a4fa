//! The fixed settings of the installer.

use vstd::prelude::*;

verus! {

pub const LICENSE: &'static str = "GNU General Public License v3.0";

pub const TITLE: &'static str = "Soulstone Survivors BepInEx Installer";

/// The archive of the mod-loader runtime.
pub const BEPINEX_URL: &'static str =
    "https://builds.bepinex.dev/projects/bepinex_be/668/BepInEx-Unity.IL2CPP-win-x64-6.0.0-be.668%2B46e297f.zip";

/// The user agent that every request carries.
pub const USER_AGENT: &'static str =
    "Mozilla/5.0 (Windows NT 10.0; Win64; x64) AppleWebKit/537.36 (KHTML, like Gecko) Chrome/111.0.0.0 Safari/537.36";

/// The listing of the repositories of the organization that publishes the
/// plugins.
pub const CATALOG_URL: &'static str = "https://api.github.com/orgs/SoulstoneAddons/repos";

/// The application id of the game that the installer targets.
pub const GAME_ID: &'static str = "2066020";

/// What the operator is told when the catalog refuses a caller that has
/// asked too often.
pub const RATE_LIMIT_NOTICE: &'static str =
    "Rate limit exceeded, please wait a few minutes and try again.";

/// The status with which the catalog answers a caller that has asked too
/// often.
pub const RATE_LIMITED: u16 = 403;

} // verus!
