//! Verified core of a desktop helper that installs and uninstalls the
//! SpaceWarp mod loader (and its BepInEx runtime patcher) into a locally
//! detected Kerbal Space Program 2 installation.
//!
//! The library holds the installation state machine: resolving the target
//! directory, gating on its validity and on the already-installed /
//! prerequisite markers, resolving the download URL from the release feed,
//! and sequencing download, extraction, cleanup and uninstall removals.
//! The surrounding shell performs the actual network and disk work and
//! feeds the results back into the machine as events.

use vstd::prelude::*;

pub mod drive;
pub mod feed;
pub mod install;
pub mod laws;
pub mod paths;
pub mod strutil;
pub mod uninstall;

verus! {

/// The two distributable kinds served by the release feed.
#[derive(Clone, Copy, PartialEq, Eq, Structural, Debug)]
pub enum LoaderKind {
    /// The primary mod-loading distributable, installed into the game's
    /// root directory.
    Loader,
    /// The secondary distributable that patches the game's runtime
    /// loading process; it needs a prerequisite the loader leaves behind.
    RuntimePatcher,
}

} // verus!
