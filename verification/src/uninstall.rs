//! Uninstaller: the removal plan for each distributable kind. Removal
//! is "ensure absent": deleting something already gone counts as done,
//! so uninstalling is idempotent.

use vstd::prelude::*;

use crate::LoaderKind;
use crate::strutil::{join, joined};

verus! {

/// The reportable outcomes of an uninstall operation.
#[derive(Clone, Copy, PartialEq, Eq, Structural, Debug)]
pub enum UninstallOutcome {
    /// no installation directory could be resolved
    NotFound,
    /// every planned removal is done
    Success,
}

/// One filesystem removal of the uninstall plan.
pub struct Removal {
    /// the path to make absent
    pub path: String,
    /// whether the path is a directory tree rather than a single file
    pub is_tree: bool,
}

/// The loader's removals: its root directory tree and the three
/// companion marker files at the target root.
pub open spec fn loader_removals_spec(target: Seq<char>) -> Seq<(Seq<char>, bool)> {
    seq![
        (joined(target, "SpaceWarp"@), true),
        (joined(target, "winhttp.dll"@), false),
        (joined(target, "doorstop_config.ini"@), false),
        (joined(target, ".doorstop_version"@), false),
    ]
}

/// The runtime patcher's removal: only this system's own plugin subtree,
/// leaving the rest of the patcher installation untouched.
pub open spec fn patcher_removals_spec(target: Seq<char>) -> Seq<(Seq<char>, bool)> {
    seq![(joined(joined(joined(target, "BepInEx"@), "plugins"@), "SpaceWarp"@), true)]
}

/// The removal plan for `kind`, in the order the removals are attempted.
pub open spec fn removals_spec(kind: LoaderKind, target: Seq<char>) -> Seq<(Seq<char>, bool)> {
    match kind {
        LoaderKind::Loader => loader_removals_spec(target),
        LoaderKind::RuntimePatcher => patcher_removals_spec(target),
    }
}

/// Builds the removal plan for `kind` under `target`.
pub fn removal_plan(kind: &LoaderKind, target: &str) -> (r: Vec<Removal>)
    ensures
        r@.len() == removals_spec(*kind, target@).len(),
        forall|i: int|
            0 <= i < r@.len() ==> #[trigger] r@[i].path@ == removals_spec(*kind, target@)[i].0
                && r@[i].is_tree == removals_spec(*kind, target@)[i].1,
{
    let mut r: Vec<Removal> = Vec::new();
    match kind {
        LoaderKind::Loader => {
            r.push(Removal { path: join(target, "SpaceWarp"), is_tree: true });
            r.push(Removal { path: join(target, "winhttp.dll"), is_tree: false });
            r.push(Removal { path: join(target, "doorstop_config.ini"), is_tree: false });
            r.push(Removal { path: join(target, ".doorstop_version"), is_tree: false });
        },
        LoaderKind::RuntimePatcher => {
            let a = join(target, "BepInEx");
            let b = join(a.as_str(), "plugins");
            r.push(Removal { path: join(b.as_str(), "SpaceWarp"), is_tree: true });
        },
    }
    r
}

/// The wire status string for an uninstall outcome, exactly as the UI
/// shell expects it.
pub fn uninstall_code(r: &UninstallOutcome) -> (s: String)
    ensures
        *r == UninstallOutcome::NotFound ==> s@
            == "KSP2 path not found\nGo delete it yourself :3"@,
        *r == UninstallOutcome::Success ==> s@ == "Success"@,
{
    match r {
        UninstallOutcome::NotFound => String::from_str(
            "KSP2 path not found\nGo delete it yourself :3",
        ),
        UninstallOutcome::Success => String::from_str("Success"),
    }
}

} // verus!
