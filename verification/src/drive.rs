//! An in-memory model of the relevant slice of the filesystem — the set
//! of paths that exist — and drivers that run the install and uninstall
//! flows against it. The drivers feed the state machine exactly the
//! events a real shell would, so their contracts pin down both the
//! outcome and the final filesystem contents of every run.

use vstd::prelude::*;

use crate::LoaderKind;
use crate::feed::feed_selection;
use crate::install::{
    gate_decision, FatalError, InstallEvent, InstallFlow, InstallOutcome, InstallState,
};
use crate::paths::{
    exe_path, exe_path_spec, marker_path, marker_path_spec, mods_path, mods_path_spec,
    temp_path, temp_path_spec,
};
use crate::strutil::{join, joined, str_eq, strip_ends};
use crate::uninstall::{removal_plan, removals_spec, UninstallOutcome};
use vstd::pervasive::unreached;

verus! {

/// The set of paths a sequence of path strings stands for.
pub open spec fn present_of(paths: Seq<String>) -> Set<Seq<char>> {
    Set::new(|p: Seq<char>| exists|i: int| 0 <= i < paths.len() && paths[i]@ == p)
}

/// Whether `p` is `root` itself or lies beneath it.
pub open spec fn in_subtree(root: Seq<char>, p: Seq<char>) -> bool {
    p == root || (root.len() + 1 <= p.len() && p.subrange(0, root.len() as int + 1) == root
        + "/"@)
}

/// `s` with the whole subtree rooted at `root` removed.
pub open spec fn subtree_removed(s: Set<Seq<char>>, root: Seq<char>) -> Set<Seq<char>> {
    Set::new(|p: Seq<char>| s.contains(p) && !in_subtree(root, p))
}

proof fn lemma_present_push(paths: Seq<String>, p: String)
    ensures
        present_of(paths.push(p)) == present_of(paths).insert(p@),
{
    assert forall|q: Seq<char>|
        present_of(paths.push(p)).contains(q) == present_of(paths).insert(p@).contains(
            q,
        ) by {
        if present_of(paths.push(p)).contains(q) {
            let i = choose|i: int|
                0 <= i < paths.push(p).len() && paths.push(p)[i]@ == q;
            if i < paths.len() {
                assert(paths[i]@ == q);
            }
        }
        if present_of(paths).contains(q) {
            let i = choose|i: int| 0 <= i < paths.len() && paths[i]@ == q;
            assert(paths.push(p)[i]@ == q);
        }
        if q == p@ {
            assert(paths.push(p)[paths.len() as int]@ == q);
        }
    };
    assert(present_of(paths.push(p)) =~= present_of(paths).insert(p@));
}

/// The filesystem model: exactly the paths that exist.
pub struct Vfs {
    /// the existing paths, in no significant order
    pub paths: Vec<String>,
}

impl Vfs {
    /// The set of paths this filesystem holds.
    pub open spec fn present(&self) -> Set<Seq<char>> {
        present_of(self.paths@)
    }

    /// An empty filesystem.
    pub fn new() -> (v: Vfs)
        ensures
            v.present() == Set::<Seq<char>>::empty(),
    {
        let v = Vfs { paths: Vec::new() };
        proof {
            assert(v.present() =~= Set::<Seq<char>>::empty());
        }
        v
    }

    /// Whether `p` exists.
    pub fn has(&self, p: &str) -> (r: bool)
        ensures
            r == self.present().contains(p@),
    {
        let mut i: usize = 0;
        while i < self.paths.len()
            invariant
                i <= self.paths@.len(),
                forall|k: int| 0 <= k < i ==> self.paths@[k]@ != p@,
            decreases self.paths@.len() - i,
        {
            if str_eq(self.paths[i].as_str(), p) {
                assert(self.present().contains(p@));
                return true;
            }
            i += 1;
        }
        proof {
            if self.present().contains(p@) {
                let k = choose|k: int|
                    0 <= k < self.paths@.len() && self.paths@[k]@ == p@;
                assert(false);
            }
        }
        false
    }

    /// Makes `p` exist.
    pub fn add(&mut self, p: String)
        ensures
            final(self).present() == old(self).present().insert(p@),
    {
        let ghost pv = p@;
        let ghost before = self.paths@;
        self.paths.push(p);
        proof {
            lemma_present_push(before, self.paths@.last());
            assert(self.paths@ == before.push(self.paths@.last()));
        }
    }

    /// Makes the whole subtree rooted at `root` absent; removing what
    /// is already absent is a no-op.
    pub fn remove_subtree(&mut self, root: &str)
        ensures
            final(self).present() == subtree_removed(old(self).present(), root@),
    {
        let ghost before = self.paths@;
        let mut kept: Vec<String> = Vec::new();
        let mut i: usize = 0;
        while i < self.paths.len()
            invariant
                self.paths@ == before,
                i <= before.len(),
                forall|q: Seq<char>|
                    #[trigger] present_of(kept@).contains(q) == (exists|k: int|
                        0 <= k < i && before[k]@ == q && !in_subtree(root@, q)),
            decreases before.len() - i,
        {
            let ghost kept_before = kept@;
            if !in_subtree_exec(root, self.paths[i].as_str()) {
                let entry = self.paths[i].clone();
                assert(entry@ == before[i as int]@);
                kept.push(entry);
                proof {
                    lemma_present_push(kept_before, kept@.last());
                    assert(kept@ == kept_before.push(kept@.last()));
                }
            }
            proof {
                assert forall|q: Seq<char>|
                    #[trigger] present_of(kept@).contains(q) == (exists|k: int|
                        0 <= k < i + 1 && before[k]@ == q && !in_subtree(root@, q)) by {
                    if present_of(kept@).contains(q) {
                        if q == before[i as int]@ && !in_subtree(root@, q) {
                        } else {
                            assert(present_of(kept_before).contains(q));
                            let k = choose|k: int|
                                0 <= k < i && before[k]@ == q && !in_subtree(root@, q);
                            assert(0 <= k < i + 1 && before[k]@ == q && !in_subtree(
                                root@,
                                q,
                            ));
                        }
                    }
                    if exists|k: int|
                        0 <= k < i + 1 && before[k]@ == q && !in_subtree(root@, q) {
                        let k = choose|k: int|
                            0 <= k < i + 1 && before[k]@ == q && !in_subtree(root@, q);
                        if k < i {
                            assert(present_of(kept_before).contains(q));
                        }
                        assert(present_of(kept@).contains(q));
                    }
                };
            }
            i += 1;
        }
        self.paths = kept;
        proof {
            assert forall|q: Seq<char>|
                self.present().contains(q) == subtree_removed(
                    present_of(before),
                    root@,
                ).contains(q) by {
                if self.present().contains(q) {
                    let k = choose|k: int|
                        0 <= k < before.len() && before[k]@ == q && !in_subtree(root@, q);
                    assert(present_of(before).contains(q));
                }
                if subtree_removed(present_of(before), root@).contains(q) {
                    let k = choose|k: int| 0 <= k < before.len() && before[k]@ == q;
                    assert(0 <= k < before.len() && before[k]@ == q && !in_subtree(
                        root@,
                        q,
                    ));
                }
            };
            assert(self.present() =~= subtree_removed(present_of(before), root@));
        }
    }
}

/// Whether `p` is `root` itself or lies beneath it, executed.
pub fn in_subtree_exec(root: &str, p: &str) -> (r: bool)
    ensures
        r == in_subtree(root@, p@),
{
    proof {
        reveal_strlit("/");
    }
    if str_eq(p, root) {
        return true;
    }
    let rn = root.unicode_len();
    let pn = p.unicode_len();
    if pn <= rn {
        return false;
    }
    let mut j: usize = 0;
    while j < rn
        invariant
            rn == root@.len(),
            pn == p@.len(),
            rn < pn,
            j <= rn,
            "/"@.len() == 1,
            forall|k: int| 0 <= k < j ==> p@[k] == root@[k],
        decreases rn - j,
    {
        if p.get_char(j) != root.get_char(j) {
            proof {
                assert(p@.subrange(0, rn + 1 as int)[j as int] == p@[j as int]);
                assert((root@ + "/"@)[j as int] == root@[j as int]);
            }
            return false;
        }
        j += 1;
    }
    if p.get_char(rn) != '/' {
        proof {
            reveal_strlit("/");
            assert(p@.subrange(0, rn + 1 as int)[rn as int] == p@[rn as int]);
            assert((root@ + "/"@)[rn as int] == '/');
        }
        return false;
    }
    proof {
        reveal_strlit("/");
        assert(p@.subrange(0, rn + 1 as int) =~= root@ + "/"@);
    }
    true
}

/// Everything outside the target directory that one install run can
/// observe: what the path probe finds, what the feed returns, what
/// downloading the resolved URL yields, and whether extraction works.
pub struct World {
    /// the first existing default location, if any
    pub probed: Option<String>,
    /// the release document's text; nothing means the network is down
    pub feed: Option<String>,
    /// the archive entries (paths relative to the target) the download
    /// would yield; nothing means the download fails
    pub archive: Option<Vec<String>>,
    /// whether extraction succeeds
    pub extract_ok: bool,
}

/// The mathematical content of a `World`.
pub struct WorldModel {
    /// the first existing default location, if any
    pub probed: Option<Seq<char>>,
    /// the release document's text; nothing means the network is down
    pub feed: Option<Seq<char>>,
    /// the archive entries the download would yield
    pub archive: Option<Seq<Seq<char>>>,
    /// whether extraction succeeds
    pub extract_ok: bool,
}

impl View for World {
    type V = WorldModel;

    open spec fn view(&self) -> WorldModel {
        WorldModel {
            probed: self.probed.deep_view(),
            feed: self.feed.deep_view(),
            archive: self.archive.deep_view(),
            extract_ok: self.extract_ok,
        }
    }
}

/// The resolved target: an explicit override is authoritative, else
/// whatever the probe found.
pub open spec fn resolve_target_model(
    explicit: Option<Seq<char>>,
    probed: Option<Seq<char>>,
) -> Option<Seq<char>> {
    if explicit is Some {
        explicit
    } else {
        probed
    }
}

/// The archive entries placed beneath `target`.
pub open spec fn entries_at(target: Seq<char>, entries: Seq<Seq<char>>) -> Set<Seq<char>> {
    Set::new(
        |p: Seq<char>|
            exists|i: int|
                0 <= i < entries.len() && p == #[trigger] joined(target, entries[i]),
    )
}

/// What one successful install does to the filesystem: write the
/// temporary archive, extract it (best-effort), delete the archive,
/// and — for the loader — create the mods directory.
pub open spec fn install_effect(
    fs: Set<Seq<char>>,
    kind: LoaderKind,
    target: Seq<char>,
    entries: Seq<Seq<char>>,
    extract_ok: bool,
) -> Set<Seq<char>> {
    let with_temp = fs.insert(temp_path_spec(kind, target));
    let extracted = if extract_ok {
        with_temp.union(entries_at(target, entries))
    } else {
        with_temp
    };
    let cleaned = subtree_removed(extracted, temp_path_spec(kind, target));
    if kind is Loader {
        cleaned.insert(mods_path_spec(target))
    } else {
        cleaned
    }
}

/// What one install run yields: its result, whether an extraction
/// failure was swallowed, and the filesystem afterwards.
pub struct InstallRun {
    /// the reported result
    pub result: Result<InstallOutcome, FatalError>,
    /// whether extraction failed without failing the operation
    pub warning: bool,
    /// the filesystem contents after the run
    pub fs: Set<Seq<char>>,
}

/// The whole install operation as a function of the initial filesystem
/// and the outside world. No gate failure or fault touches the
/// filesystem.
pub open spec fn install_model(
    fs: Set<Seq<char>>,
    kind: LoaderKind,
    explicit: Option<Seq<char>>,
    w: WorldModel,
) -> InstallRun {
    match resolve_target_model(explicit, w.probed) {
        Option::None => InstallRun {
            result: Result::Ok(InstallOutcome::NotFound),
            warning: false,
            fs,
        },
        Option::Some(target) => {
            let has_exe = fs.contains(exe_path_spec(target));
            let has_marker = fs.contains(marker_path_spec(kind, target));
            match gate_decision(kind, has_exe, has_marker) {
                Option::Some(o) => InstallRun { result: Result::Ok(o), warning: false, fs },
                Option::None => match w.feed {
                    Option::None => InstallRun {
                        result: Result::Err(FatalError::NetworkDown),
                        warning: false,
                        fs,
                    },
                    Option::Some(body) => match feed_selection(kind, body) {
                        Option::None => InstallRun {
                            result: Result::Err(FatalError::MalformedFeed),
                            warning: false,
                            fs,
                        },
                        Option::Some(raw) => if strip_ends(raw).len() == 0 {
                            InstallRun {
                                result: Result::Err(FatalError::NoMatchingAsset),
                                warning: false,
                                fs,
                            }
                        } else {
                            match w.archive {
                                Option::None => InstallRun {
                                    result: Result::Err(FatalError::DownloadFailed),
                                    warning: false,
                                    fs,
                                },
                                Option::Some(entries) => InstallRun {
                                    result: Result::Ok(InstallOutcome::Success),
                                    warning: !w.extract_ok,
                                    fs: install_effect(fs, kind, target, entries, w.extract_ok),
                                },
                            }
                        },
                    },
                },
            }
        },
    }
}

/// Duplicates an optional string.
fn clone_opt(o: &Option<String>) -> (r: Option<String>)
    ensures
        r.deep_view() == o.deep_view(),
{
    match o {
        Option::Some(s) => Option::Some(s.clone()),
        Option::None => Option::None,
    }
}

proof fn lemma_entries_at_step(target: Seq<char>, entries: Seq<Seq<char>>, i: int)
    requires
        0 <= i < entries.len(),
    ensures
        entries_at(target, entries.take(i + 1)) == entries_at(target, entries.take(i)).insert(
            joined(target, entries[i]),
        ),
{
    assert forall|p: Seq<char>|
        entries_at(target, entries.take(i + 1)).contains(p) == entries_at(
            target,
            entries.take(i),
        ).insert(joined(target, entries[i])).contains(p) by {
        if entries_at(target, entries.take(i + 1)).contains(p) {
            let k = choose|k: int|
                0 <= k < entries.take(i + 1).len() && p == #[trigger] joined(
                    target,
                    entries.take(i + 1)[k],
                );
            if k < i {
                assert(entries.take(i as int)[k] == entries[k]);
                assert(entries_at(target, entries.take(i as int)).contains(p));
            }
        }
        if entries_at(target, entries.take(i as int)).contains(p) {
            let k = choose|k: int|
                0 <= k < entries.take(i as int).len() && p == #[trigger] joined(
                    target,
                    entries.take(i as int)[k],
                );
            assert(entries.take(i + 1)[k] == entries[k]);
            assert(entries_at(target, entries.take(i + 1)).contains(p));
        }
        if p == joined(target, entries[i]) {
            assert(entries.take(i + 1)[i] == entries[i]);
            assert(entries_at(target, entries.take(i + 1)).contains(p));
        }
    };
    assert(entries_at(target, entries.take(i + 1)) =~= entries_at(
        target,
        entries.take(i),
    ).insert(joined(target, entries[i])));
}

/// Places every archive entry beneath `target`.
fn add_entries(vfs: &mut Vfs, target: &str, entries: &Vec<String>)
    ensures
        final(vfs).present() == old(vfs).present().union(
            entries_at(target@, entries.deep_view()),
        ),
{
    let ghost all = entries.deep_view();
    let mut i: usize = 0;
    while i < entries.len()
        invariant
            all == entries.deep_view(),
            all.len() == entries.len(),
            i <= entries.len(),
            vfs.present() == old(vfs).present().union(entries_at(target@, all.take(i as int))),
        decreases entries.len() - i,
    {
        let p = join(target, entries[i].as_str());
        vfs.add(p);
        proof {
            lemma_entries_at_step(target@, all, i as int);
            assert(vfs.present() =~= old(vfs).present().union(
                entries_at(target@, all.take(i + 1)),
            ));
        }
        i += 1;
    }
    proof {
        assert(all.take(entries.len() as int) =~= all);
        assert(vfs.present() =~= old(vfs).present().union(entries_at(target@, all)));
    }
}

/// Runs one whole install against the filesystem model, driving the
/// state machine with exactly the events a real shell would produce.
/// The contract: the result, the swallowed-extraction flag and the
/// final filesystem are those of `install_model`.
pub fn run_install(
    vfs: &mut Vfs,
    kind: LoaderKind,
    explicit: Option<String>,
    world: &World,
) -> (r: (Result<InstallOutcome, FatalError>, bool))
    ensures
        r.0 == install_model(old(vfs).present(), kind, explicit.deep_view(), world@).result,
        r.1 == install_model(old(vfs).present(), kind, explicit.deep_view(), world@).warning,
        final(vfs).present() == install_model(
            old(vfs).present(),
            kind,
            explicit.deep_view(),
            world@,
        ).fs,
{
    let mut flow = InstallFlow::start(kind, explicit);

    let ev0 = match &flow.state {
        InstallState::Probe => Option::Some(InstallEvent::Probed {
            found: clone_opt(&world.probed),
        }),
        _ => Option::None,
    };
    if let Option::Some(ev) = ev0 {
        flow = flow.step(ev);
    }
    let ev1 = match &flow.state {
        InstallState::Gate { target } => {
            let e = exe_path(target.as_str());
            let m = marker_path(&kind, target.as_str());
            Option::Some(InstallEvent::Gated {
                has_exe: vfs.has(e.as_str()),
                has_marker: vfs.has(m.as_str()),
            })
        },
        _ => Option::None,
    };
    if let Option::Some(ev) = ev1 {
        flow = flow.step(ev);
    }
    let ev2 = match &flow.state {
        InstallState::Fetch { .. } => Option::Some(InstallEvent::FeedArrived {
            body: clone_opt(&world.feed),
        }),
        _ => Option::None,
    };
    if let Option::Some(ev) = ev2 {
        flow = flow.step(ev);
    }
    let ev3 = match &flow.state {
        InstallState::Download { target, .. } => match &world.archive {
            Option::Some(_) => {
                let tp = temp_path(&kind, target.as_str());
                vfs.add(tp);
                Option::Some(InstallEvent::Saved { ok: true })
            },
            Option::None => Option::Some(InstallEvent::Saved { ok: false }),
        },
        _ => Option::None,
    };
    if let Option::Some(ev) = ev3 {
        flow = flow.step(ev);
    }
    let ev4 = match &flow.state {
        InstallState::Extract { target } => {
            if world.extract_ok {
                match &world.archive {
                    Option::Some(entries) => {
                        add_entries(vfs, target.as_str(), entries);
                        Option::Some(InstallEvent::Extracted { ok: true })
                    },
                    Option::None => Option::Some(InstallEvent::Extracted { ok: false }),
                }
            } else {
                Option::Some(InstallEvent::Extracted { ok: false })
            }
        },
        _ => Option::None,
    };
    if let Option::Some(ev) = ev4 {
        flow = flow.step(ev);
    }
    let ev5 = match &flow.state {
        InstallState::Cleanup { target } => {
            let tp = temp_path(&kind, target.as_str());
            vfs.remove_subtree(tp.as_str());
            Option::Some(InstallEvent::Cleaned { ok: true })
        },
        _ => Option::None,
    };
    if let Option::Some(ev) = ev5 {
        flow = flow.step(ev);
    }
    let ev6 = match &flow.state {
        InstallState::Finalize { target } => {
            let mp = mods_path(target.as_str());
            vfs.add(mp);
            Option::Some(InstallEvent::Finalized { ok: true })
        },
        _ => Option::None,
    };
    if let Option::Some(ev) = ev6 {
        flow = flow.step(ev);
    }
    match flow.state {
        InstallState::Done { result } => (result, flow.extract_warning),
        _ => unreached(),
    }
}

/// What one uninstall run yields.
pub struct UninstallRun {
    /// the reported result
    pub result: UninstallOutcome,
    /// the filesystem contents after the run
    pub fs: Set<Seq<char>>,
}

/// The removal plan applied in order, each removal a whole subtree.
pub open spec fn removals_applied(
    fs: Set<Seq<char>>,
    removals: Seq<(Seq<char>, bool)>,
) -> Set<Seq<char>>
    decreases removals.len(),
{
    if removals.len() == 0 {
        fs
    } else {
        subtree_removed(removals_applied(fs, removals.drop_last()), removals.last().0)
    }
}

/// The whole uninstall operation as a function of the initial
/// filesystem and the probe's finding. Only the probe resolves the
/// target here — no explicit override is taken, a deliberate asymmetry
/// with install.
pub open spec fn uninstall_model(
    fs: Set<Seq<char>>,
    kind: LoaderKind,
    probed: Option<Seq<char>>,
) -> UninstallRun {
    match probed {
        Option::None => UninstallRun { result: UninstallOutcome::NotFound, fs },
        Option::Some(target) => UninstallRun {
            result: UninstallOutcome::Success,
            fs: removals_applied(fs, removals_spec(kind, target)),
        },
    }
}

/// Runs one whole uninstall against the filesystem model: resolves the
/// target from the probe's finding alone and makes every planned
/// removal absent.
pub fn run_uninstall(vfs: &mut Vfs, kind: LoaderKind, probed: &Option<String>) -> (r:
    UninstallOutcome)
    ensures
        r == uninstall_model(old(vfs).present(), kind, probed.deep_view()).result,
        final(vfs).present() == uninstall_model(
            old(vfs).present(),
            kind,
            probed.deep_view(),
        ).fs,
{
    match probed {
        Option::None => UninstallOutcome::NotFound,
        Option::Some(t) => {
            let ghost plan_spec = removals_spec(kind, t@);
            let plan = removal_plan(&kind, t.as_str());
            let mut i: usize = 0;
            while i < plan.len()
                invariant
                    plan@.len() == plan_spec.len(),
                    forall|k: int|
                        0 <= k < plan@.len() ==> #[trigger] plan@[k].path@ == plan_spec[k].0,
                    i <= plan@.len(),
                    vfs.present() == removals_applied(
                        old(vfs).present(),
                        plan_spec.take(i as int),
                    ),
                decreases plan@.len() - i,
            {
                vfs.remove_subtree(plan[i].path.as_str());
                proof {
                    assert(plan_spec.take(i + 1).drop_last() =~= plan_spec.take(i as int));
                    assert(plan_spec.take(i + 1).last() == plan_spec[i as int]);
                }
                i += 1;
            }
            proof {
                assert(plan_spec.take(plan@.len() as int) =~= plan_spec);
            }
            UninstallOutcome::Success
        },
    }
}

} // verus!
