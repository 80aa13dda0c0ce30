//! Path resolver helpers and the marker paths whose presence or absence
//! is the only installed state the system keeps. Paths are plain strings
//! joined with a single separator; the shell maps them onto the host
//! filesystem.

use vstd::prelude::*;

use crate::LoaderKind;
use crate::strutil::{join, joined};

verus! {

/// The file whose presence makes a directory a valid installation
/// target.
pub open spec fn exe_path_spec(target: Seq<char>) -> Seq<char> {
    joined(target, "KSP2_x64.exe"@)
}

/// The kind-specific marker consulted by the install gates: the
/// loader's own install subdirectory, or the runtime patcher's
/// prerequisite directory.
pub open spec fn marker_path_spec(kind: LoaderKind, target: Seq<char>) -> Seq<char> {
    match kind {
        LoaderKind::Loader => joined(target, "SpaceWarp"@),
        LoaderKind::RuntimePatcher => joined(target, "BepInEx"@),
    }
}

/// The temporary archive written inside the target during one install.
pub open spec fn temp_path_spec(kind: LoaderKind, target: Seq<char>) -> Seq<char> {
    match kind {
        LoaderKind::Loader => joined(target, "space_warp_temp.zip"@),
        LoaderKind::RuntimePatcher => joined(target, "space_warp_bepinex_temp.zip"@),
    }
}

/// The mods directory created beneath the fresh loader root.
pub open spec fn mods_path_spec(target: Seq<char>) -> Seq<char> {
    joined(joined(target, "SpaceWarp"@), "Mods"@)
}

/// Executable form of `exe_path_spec`.
pub fn exe_path(target: &str) -> (r: String)
    ensures
        r@ == exe_path_spec(target@),
{
    join(target, "KSP2_x64.exe")
}

/// Executable form of `marker_path_spec`.
pub fn marker_path(kind: &LoaderKind, target: &str) -> (r: String)
    ensures
        r@ == marker_path_spec(*kind, target@),
{
    match kind {
        LoaderKind::Loader => join(target, "SpaceWarp"),
        LoaderKind::RuntimePatcher => join(target, "BepInEx"),
    }
}

/// Executable form of `temp_path_spec`.
pub fn temp_path(kind: &LoaderKind, target: &str) -> (r: String)
    ensures
        r@ == temp_path_spec(*kind, target@),
{
    match kind {
        LoaderKind::Loader => join(target, "space_warp_temp.zip"),
        LoaderKind::RuntimePatcher => join(target, "space_warp_bepinex_temp.zip"),
    }
}

/// Executable form of `mods_path_spec`.
pub fn mods_path(target: &str) -> (r: String)
    ensures
        r@ == mods_path_spec(target@),
{
    let root = join(target, "SpaceWarp");
    join(root.as_str(), "Mods")
}

/// The primary known location: the vendor-specific library path under
/// the given platform directory.
pub open spec fn steam_candidate_spec(program_files_x86: Seq<char>) -> Seq<char> {
    joined(
        joined(joined(joined(program_files_x86, "Steam"@), "steamapps"@), "common"@),
        "Kerbal Space Program 2"@,
    )
}

/// The secondary known location: the publisher's default install path
/// under the given platform directory.
pub open spec fn default_candidate_spec(program_files: Seq<char>) -> Seq<char> {
    joined(joined(program_files, "Private Division"@), "Kerbal Space Program 2"@)
}

/// Executable form of `steam_candidate_spec`.
pub fn steam_candidate(program_files_x86: &str) -> (r: String)
    ensures
        r@ == steam_candidate_spec(program_files_x86@),
{
    let a = join(program_files_x86, "Steam");
    let b = join(a.as_str(), "steamapps");
    let c = join(b.as_str(), "common");
    join(c.as_str(), "Kerbal Space Program 2")
}

/// Executable form of `default_candidate_spec`.
pub fn default_candidate(program_files: &str) -> (r: String)
    ensures
        r@ == default_candidate_spec(program_files@),
{
    let a = join(program_files, "Private Division");
    join(a.as_str(), "Kerbal Space Program 2")
}

/// The path resolver's decision: whichever candidate exists first, the
/// primary before the fallback, or none. A candidate is handed in only
/// when the probe found it.
pub fn pick_install_path(primary: Option<String>, fallback: Option<String>) -> (r: Option<
    String,
>)
    ensures
        primary is Some ==> r == primary,
        primary is None ==> r == fallback,
{
    match primary {
        Option::Some(p) => Option::Some(p),
        Option::None => fallback,
    }
}

} // verus!
