//! The library's laws: proofs that the install and uninstall models
//! behave as promised — gates fire before any side effect, a repeated
//! loader install is a no-op, and install followed by uninstall returns
//! the filesystem to its prior contents.

use vstd::prelude::*;

use crate::LoaderKind;
use crate::drive::{
    entries_at, in_subtree, install_model, removals_applied, resolve_target_model,
    subtree_removed, uninstall_model, WorldModel,
};
use crate::feed::feed_selection;
use crate::install::{FatalError, InstallOutcome};
use crate::paths::{exe_path_spec, marker_path_spec, mods_path_spec, temp_path_spec};
use crate::strutil::{joined, strip_ends};
use crate::uninstall::{removals_spec, UninstallOutcome};

verus! {

proof fn lemma_joined_len(base: Seq<char>, name: Seq<char>)
    ensures
        joined(base, name).len() == base.len() + 1 + name.len(),
{
    reveal_strlit("/");
}

proof fn lemma_shorter_not_in_subtree(root: Seq<char>, p: Seq<char>)
    requires
        p.len() < root.len(),
    ensures
        !in_subtree(root, p),
{
}

proof fn lemma_join_in_subtree(root: Seq<char>, name: Seq<char>)
    ensures
        in_subtree(root, joined(root, name)),
{
    reveal_strlit("/");
    lemma_joined_len(root, name);
    assert(joined(root, name).subrange(0, root.len() as int + 1) =~= root + "/"@);
}

proof fn lemma_join_subtree_mono(t: Seq<char>, r: Seq<char>, e: Seq<char>)
    requires
        in_subtree(r, e),
    ensures
        in_subtree(joined(t, r), joined(t, e)),
{
    reveal_strlit("/");
    lemma_joined_len(t, r);
    lemma_joined_len(t, e);
    if e == r {
    } else {
        let jr = joined(t, r);
        let je = joined(t, e);
        assert forall|idx: int| 0 <= idx < jr.len() + 1 implies je.subrange(
            0,
            jr.len() as int + 1,
        )[idx] == (jr + "/"@)[idx] by {
            assert(je.subrange(0, jr.len() as int + 1)[idx] == je[idx]);
            if idx < t.len() + 1 {
                assert(je[idx] == (t + "/"@)[idx]);
                assert((jr + "/"@)[idx] == jr[idx]);
                assert(jr[idx] == (t + "/"@)[idx]);
            } else {
                let k = idx - (t.len() + 1);
                assert(je[idx] == e[k]);
                assert(e.subrange(0, r.len() as int + 1)[k] == e[k]);
                assert(e[k] == (r + "/"@)[k]);
                if k < r.len() {
                    assert((jr + "/"@)[idx] == jr[idx]);
                    assert(jr[idx] == r[k]);
                    assert((r + "/"@)[k] == r[k]);
                } else {
                    assert((jr + "/"@)[idx] == "/"@[0]);
                    assert((r + "/"@)[k] == "/"@[0]);
                }
            }
        };
        assert(je.subrange(0, jr.len() as int + 1) =~= jr + "/"@);
    }
}

proof fn lemma_removals_applied_membership(
    fs: Set<Seq<char>>,
    removals: Seq<(Seq<char>, bool)>,
    p: Seq<char>,
)
    ensures
        removals_applied(fs, removals).contains(p) == (fs.contains(p) && (forall|i: int|
            0 <= i < removals.len() ==> !in_subtree((#[trigger] removals[i]).0, p))),
    decreases removals.len(),
{
    if removals.len() == 0 {
    } else {
        let dl = removals.drop_last();
        lemma_removals_applied_membership(fs, dl, p);
        assert forall|i: int| 0 <= i < dl.len() implies dl[i] == removals[i] by {}
        if removals_applied(fs, removals).contains(p) {
            assert forall|i: int|
                0 <= i < removals.len() implies !in_subtree(
                    (#[trigger] removals[i]).0,
                    p,
                ) by {
                if i < removals.len() - 1 {
                    assert(!in_subtree(dl[i].0, p));
                }
            }
        }
        if fs.contains(p) && (forall|i: int|
            0 <= i < removals.len() ==> !in_subtree((#[trigger] removals[i]).0, p)) {
            assert forall|i: int| 0 <= i < dl.len() implies !in_subtree(
                (#[trigger] dl[i]).0,
                p,
            ) by {
                assert(dl[i] == removals[i]);
            }
            assert(removals_applied(fs, dl).contains(p));
            assert(!in_subtree(removals.last().0, p));
        }
    }
}

/// Law (gate ordering): when the resolved target lacks the main
/// executable, install reports an invalid target and the filesystem is
/// untouched — whatever the network, the feed or the archive would have
/// yielded, since no later step is reached.
pub proof fn lemma_invalid_target_untouched(
    fs: Set<Seq<char>>,
    kind: LoaderKind,
    explicit: Option<Seq<char>>,
    w: WorldModel,
    target: Seq<char>,
)
    requires
        resolve_target_model(explicit, w.probed) == Option::Some(target),
        !fs.contains(exe_path_spec(target)),
    ensures
        install_model(fs, kind, explicit, w).result == Result::<
            InstallOutcome,
            FatalError,
        >::Ok(InstallOutcome::InvalidTarget),
        install_model(fs, kind, explicit, w).fs == fs,
        !install_model(fs, kind, explicit, w).warning,
{
}

/// Law (prerequisite gate): a runtime-patcher install against a valid
/// target that lacks the prerequisite directory reports that and stops
/// with zero side effects, regardless of network availability.
pub proof fn lemma_prerequisite_gate_untouched(
    fs: Set<Seq<char>>,
    explicit: Option<Seq<char>>,
    w: WorldModel,
    target: Seq<char>,
)
    requires
        resolve_target_model(explicit, w.probed) == Option::Some(target),
        fs.contains(exe_path_spec(target)),
        !fs.contains(marker_path_spec(LoaderKind::RuntimePatcher, target)),
    ensures
        install_model(fs, LoaderKind::RuntimePatcher, explicit, w).result == Result::<
            InstallOutcome,
            FatalError,
        >::Ok(InstallOutcome::NotPrerequisiteMet),
        install_model(fs, LoaderKind::RuntimePatcher, explicit, w).fs == fs,
{
}

/// The conditions under which one loader install runs to completion:
/// the target resolves, it is valid, the loader is not yet present, the
/// feed yields a usable URL, and the download and extraction work.
pub open spec fn loader_install_succeeds(
    fs: Set<Seq<char>>,
    explicit: Option<Seq<char>>,
    w: WorldModel,
    target: Seq<char>,
) -> bool {
    &&& resolve_target_model(explicit, w.probed) == Option::Some(target)
    &&& fs.contains(exe_path_spec(target))
    &&& !fs.contains(marker_path_spec(LoaderKind::Loader, target))
    &&& w.feed matches Option::Some(body)
    &&& feed_selection(LoaderKind::Loader, body) matches Option::Some(raw)
    &&& strip_ends(raw).len() > 0
    &&& w.archive is Some
    &&& w.extract_ok
}

/// Law (idempotent install): a loader install against a valid,
/// never-before-installed target succeeds, and a second install against
/// the resulting filesystem reports the loader as already installed and
/// changes nothing, so the state after both calls is the state after
/// the first.
pub proof fn lemma_loader_install_idempotent(
    fs: Set<Seq<char>>,
    explicit: Option<Seq<char>>,
    w: WorldModel,
    w2: WorldModel,
    target: Seq<char>,
)
    requires
        loader_install_succeeds(fs, explicit, w, target),
        w.archive->Some_0.contains("SpaceWarp"@),
        resolve_target_model(explicit, w2.probed) == Option::Some(target),
    ensures
        install_model(fs, LoaderKind::Loader, explicit, w).result == Result::<
            InstallOutcome,
            FatalError,
        >::Ok(InstallOutcome::Success),
        install_model(
            install_model(fs, LoaderKind::Loader, explicit, w).fs,
            LoaderKind::Loader,
            explicit,
            w2,
        ).result == Result::<InstallOutcome, FatalError>::Ok(
            InstallOutcome::AlreadyInstalled,
        ),
        install_model(
            install_model(fs, LoaderKind::Loader, explicit, w).fs,
            LoaderKind::Loader,
            explicit,
            w2,
        ).fs == install_model(fs, LoaderKind::Loader, explicit, w).fs,
{
    reveal_strlit("SpaceWarp");
    reveal_strlit("space_warp_temp.zip");
    reveal_strlit("KSP2_x64.exe");
    let kind = LoaderKind::Loader;
    let marker = marker_path_spec(kind, target);
    let exe = exe_path_spec(target);
    let temp = temp_path_spec(kind, target);
    lemma_joined_len(target, "SpaceWarp"@);
    lemma_joined_len(target, "space_warp_temp.zip"@);
    lemma_joined_len(target, "KSP2_x64.exe"@);
    lemma_shorter_not_in_subtree(temp, marker);
    lemma_shorter_not_in_subtree(temp, exe);
    let entries = w.archive->Some_0;
    let i = choose|i: int| 0 <= i < entries.len() && entries[i] == "SpaceWarp"@;
    assert(joined(target, entries[i]) == marker);
    assert(entries_at(target, entries).contains(marker));
    let m1 = install_model(fs, kind, explicit, w);
    assert(m1.fs.contains(marker));
    assert(m1.fs.contains(exe));
}

/// What a well-formed loader archive may contain: entries that land in
/// the loader's own directory tree or are one of its three companion
/// marker files.
pub open spec fn loader_artifact(entry: Seq<char>) -> bool {
    ||| in_subtree("SpaceWarp"@, entry)
    ||| entry == "winhttp.dll"@
    ||| entry == "doorstop_config.ini"@
    ||| entry == ".doorstop_version"@
}

/// No prior loader state: nothing in the filesystem lies where a loader
/// install would write or an uninstall would remove.
pub open spec fn untouched_by_loader(target: Seq<char>, p: Seq<char>) -> bool {
    &&& !in_subtree(joined(target, "SpaceWarp"@), p)
    &&& !in_subtree(joined(target, "winhttp.dll"@), p)
    &&& !in_subtree(joined(target, "doorstop_config.ini"@), p)
    &&& !in_subtree(joined(target, ".doorstop_version"@), p)
    &&& !in_subtree(temp_path_spec(LoaderKind::Loader, target), p)
}

/// Law (round trip): a loader install against a target with no prior
/// loader state, followed by an uninstall that resolves the same
/// target, returns the filesystem to exactly its pre-install contents —
/// the temporary archive included, which never persists.
pub proof fn lemma_install_uninstall_round_trip(
    fs: Set<Seq<char>>,
    explicit: Option<Seq<char>>,
    w: WorldModel,
    target: Seq<char>,
)
    requires
        resolve_target_model(explicit, w.probed) == Option::Some(target),
        fs.contains(exe_path_spec(target)),
        ({
            &&& w.feed matches Option::Some(body)
            &&& feed_selection(LoaderKind::Loader, body) matches Option::Some(raw)
            &&& strip_ends(raw).len() > 0
        }),
        w.archive is Some,
        w.extract_ok,
        forall|i: int|
            0 <= i < w.archive->Some_0.len() ==> loader_artifact(
                #[trigger] w.archive->Some_0[i],
            ),
        forall|p: Seq<char>| #[trigger] fs.contains(p) ==> untouched_by_loader(target, p),
    ensures
        install_model(fs, LoaderKind::Loader, explicit, w).result == Result::<
            InstallOutcome,
            FatalError,
        >::Ok(InstallOutcome::Success),
        uninstall_model(
            install_model(fs, LoaderKind::Loader, explicit, w).fs,
            LoaderKind::Loader,
            Option::Some(target),
        ).result == UninstallOutcome::Success,
        uninstall_model(
            install_model(fs, LoaderKind::Loader, explicit, w).fs,
            LoaderKind::Loader,
            Option::Some(target),
        ).fs == fs,
{
    let kind = LoaderKind::Loader;
    let sw = joined(target, "SpaceWarp"@);
    let temp = temp_path_spec(kind, target);
    let entries = w.archive->Some_0;
    assert(!fs.contains(marker_path_spec(kind, target))) by {
        if fs.contains(sw) {
            assert(untouched_by_loader(target, sw));
            assert(in_subtree(sw, sw));
        }
    }
    let m1 = install_model(fs, kind, explicit, w);
    assert(m1.result == Result::<InstallOutcome, FatalError>::Ok(InstallOutcome::Success));
    let plan = removals_spec(kind, target);
    assert(plan[0].0 == sw);
    assert(plan[1].0 == joined(target, "winhttp.dll"@));
    assert(plan[2].0 == joined(target, "doorstop_config.ini"@));
    assert(plan[3].0 == joined(target, ".doorstop_version"@));
    let m2 = uninstall_model(m1.fs, kind, Option::Some(target));
    assert forall|p: Seq<char>| m2.fs.contains(p) == fs.contains(p) by {
        lemma_removals_applied_membership(m1.fs, plan, p);
        if fs.contains(p) {
            assert(untouched_by_loader(target, p));
            assert(m1.fs.contains(p));
            assert forall|i: int| 0 <= i < plan.len() implies !in_subtree(
                (#[trigger] plan[i]).0,
                p,
            ) by {
                if i == 0 {
                } else if i == 1 {
                } else if i == 2 {
                } else {
                    assert(i == 3);
                }
            }
            assert(m2.fs.contains(p));
        }
        if m2.fs.contains(p) {
            assert(m1.fs.contains(p));
            if p == mods_path_spec(target) {
                lemma_join_in_subtree(sw, "Mods"@);
                assert(in_subtree(plan[0].0, p));
                assert(false);
            } else {
                assert(subtree_removed(
                    fs.insert(temp).union(entries_at(target, entries)),
                    temp,
                ).contains(p));
                assert(!in_subtree(temp, p));
                if entries_at(target, entries).contains(p) {
                    let k = choose|k: int|
                        0 <= k < entries.len() && p == #[trigger] joined(
                            target,
                            entries[k],
                        );
                    let e = entries[k];
                    assert(loader_artifact(e));
                    if in_subtree("SpaceWarp"@, e) {
                        lemma_join_subtree_mono(target, "SpaceWarp"@, e);
                        assert(in_subtree(plan[0].0, p));
                        assert(false);
                    } else if e == "winhttp.dll"@ {
                        assert(in_subtree(plan[1].0, p));
                        assert(false);
                    } else if e == "doorstop_config.ini"@ {
                        assert(in_subtree(plan[2].0, p));
                        assert(false);
                    } else {
                        assert(e == ".doorstop_version"@);
                        assert(in_subtree(plan[3].0, p));
                        assert(false);
                    }
                } else if p == temp {
                    assert(in_subtree(temp, p));
                    assert(false);
                } else {
                    assert(fs.contains(p));
                }
            }
        }
    }
    assert(m2.fs =~= fs);
}

} // verus!
