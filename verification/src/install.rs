//! The installation state machine. Each non-terminal state names the
//! single outside action the driver must perform next; the driver hands
//! the action's result back as an event, and no network or filesystem
//! action is requested before every gate has passed.

use vstd::prelude::*;
use vstd::pervasive::unreached;

use crate::LoaderKind;
use crate::feed::{feed_selection, resolve_asset_url};
use crate::strutil::{rem_first_and_last, strip_ends};

verus! {

/// The reportable outcomes of an install operation; the caller branches
/// on these, they are never faults.
#[derive(Clone, Copy, PartialEq, Eq, Structural, Debug)]
pub enum InstallOutcome {
    /// no installation directory could be resolved
    NotFound,
    /// the resolved directory does not contain the main executable
    InvalidTarget,
    /// the loader's install subdirectory is already present
    AlreadyInstalled,
    /// the runtime patcher's prerequisite directory is missing
    NotPrerequisiteMet,
    /// the distributable was installed
    Success,
}

/// The fatal faults: the operation aborts with no further side effects,
/// and the caller is handed a distinct error kind rather than a crash.
#[derive(Clone, Copy, PartialEq, Eq, Structural, Debug)]
pub enum FatalError {
    /// the release feed could not be fetched
    NetworkDown,
    /// the release document could not be read
    MalformedFeed,
    /// no asset passed the naming filter, so no usable URL remained
    NoMatchingAsset,
    /// the archive could not be downloaded and written
    DownloadFailed,
    /// a later filesystem step (cleanup, layout fix-up) failed
    FilesystemFailed,
}

/// The stations of one install operation, in the order they are passed;
/// each non-terminal station names the outside action awaited next.
pub enum InstallState {
    /// probe the default install locations
    Probe,
    /// stat the main executable and the kind's marker inside the target
    Gate { target: String },
    /// fetch the release feed document
    Fetch { target: String },
    /// download `url` and write it to the temporary archive in the target
    Download { target: String, url: String },
    /// extract the temporary archive into the target (best-effort)
    Extract { target: String },
    /// delete the temporary archive
    Cleanup { target: String },
    /// create the mods directory beneath the fresh loader root
    Finalize { target: String },
    /// finished
    Done { result: Result<InstallOutcome, FatalError> },
}

/// What the driver reports back after performing the pending action.
pub enum InstallEvent {
    /// the probe's result: the first existing default location, if any
    Probed { found: Option<String> },
    /// whether the executable and the kind's marker exist in the target
    Gated { has_exe: bool, has_marker: bool },
    /// the feed document's text, or nothing when the network failed
    FeedArrived { body: Option<String> },
    /// whether the archive was downloaded and written to the temp file
    Saved { ok: bool },
    /// whether extraction succeeded (a failure is recorded, not fatal)
    Extracted { ok: bool },
    /// whether the temporary archive was deleted
    Cleaned { ok: bool },
    /// whether the mods directory was created
    Finalized { ok: bool },
}

/// One in-flight install operation.
pub struct InstallFlow {
    /// which distributable this operation installs
    pub kind: LoaderKind,
    /// whether extraction reported a failure that was swallowed
    pub extract_warning: bool,
    /// the station the operation stands at
    pub state: InstallState,
}

/// The hard gates, in order: validity first, then the kind-specific
/// precondition. `None` means the operation may proceed.
pub open spec fn gate_decision(kind: LoaderKind, has_exe: bool, has_marker: bool) -> Option<
    InstallOutcome,
> {
    if !has_exe {
        Option::Some(InstallOutcome::InvalidTarget)
    } else if kind is Loader && has_marker {
        Option::Some(InstallOutcome::AlreadyInstalled)
    } else if kind is RuntimePatcher && !has_marker {
        Option::Some(InstallOutcome::NotPrerequisiteMet)
    } else {
        Option::None
    }
}

impl InstallFlow {
    /// Which events the current station can take.
    pub open spec fn accepts(self, ev: InstallEvent) -> bool {
        match self.state {
            InstallState::Probe => ev is Probed,
            InstallState::Gate { .. } => ev is Gated,
            InstallState::Fetch { .. } => ev is FeedArrived,
            InstallState::Download { .. } => ev is Saved,
            InstallState::Extract { .. } => ev is Extracted,
            InstallState::Cleanup { .. } => ev is Cleaned,
            InstallState::Finalize { .. } => ev is Finalized,
            InstallState::Done { .. } => false,
        }
    }

    /// Whether the operation has finished.
    pub open spec fn spec_is_done(&self) -> bool {
        self.state is Done
    }

    /// Whether the operation has finished.
    #[verifier::when_used_as_spec(spec_is_done)]
    pub fn is_done(&self) -> (r: bool)
        ensures
            r == self.spec_is_done(),
    {
        match self.state {
            InstallState::Done { .. } => true,
            _ => false,
        }
    }

    /// Begins an install: an explicit path is authoritative and skips
    /// the probe; otherwise the default locations are probed first.
    pub fn start(kind: LoaderKind, explicit: Option<String>) -> (f: InstallFlow)
        ensures
            f.kind == kind,
            !f.extract_warning,
            explicit matches Some(t) ==> f.state matches InstallState::Gate { target }
                && target@ == t@,
            explicit is None ==> f.state is Probe,
    {
        match explicit {
            Option::Some(target) => InstallFlow {
                kind,
                extract_warning: false,
                state: InstallState::Gate { target },
            },
            Option::None => InstallFlow { kind, extract_warning: false, state: InstallState::Probe },
        }
    }

    /// One transition: takes the result of the pending action and moves
    /// to the next station. The contract pins every transition down:
    /// a failed gate or fault goes straight to `Done`, and the download
    /// URL is the feed selection with its quote characters stripped.
    pub fn step(self, ev: InstallEvent) -> (next: InstallFlow)
        requires
            self.accepts(ev),
        ensures
            next.kind == self.kind,
            next.extract_warning == (self.extract_warning || (match (self.state, ev) {
                (InstallState::Extract { .. }, InstallEvent::Extracted { ok }) => !ok,
                _ => false,
            })),
            (match (self.state, ev) {
                (InstallState::Probe, InstallEvent::Probed { found }) => match found {
                    Option::None => next.state matches InstallState::Done { result }
                        && result == Result::<InstallOutcome, FatalError>::Ok(
                        InstallOutcome::NotFound,
                    ),
                    Option::Some(t) => next.state matches InstallState::Gate { target }
                        && target@ == t@,
                },
                (
                    InstallState::Gate { target },
                    InstallEvent::Gated { has_exe, has_marker },
                ) => match gate_decision(self.kind, has_exe, has_marker) {
                    Option::Some(o) => next.state matches InstallState::Done { result }
                        && result == Result::<InstallOutcome, FatalError>::Ok(o),
                    Option::None => next.state matches InstallState::Fetch { target: t2 }
                        && t2@ == target@,
                },
                (InstallState::Fetch { target }, InstallEvent::FeedArrived { body }) => match body {
                    Option::None => next.state matches InstallState::Done { result }
                        && result == Result::<InstallOutcome, FatalError>::Err(
                        FatalError::NetworkDown,
                    ),
                    Option::Some(b) => match feed_selection(self.kind, b@) {
                        Option::None => next.state matches InstallState::Done { result }
                            && result == Result::<InstallOutcome, FatalError>::Err(
                            FatalError::MalformedFeed,
                        ),
                        Option::Some(raw) => if strip_ends(raw).len() == 0 {
                            next.state matches InstallState::Done { result } && result
                                == Result::<InstallOutcome, FatalError>::Err(
                                FatalError::NoMatchingAsset,
                            )
                        } else {
                            next.state matches InstallState::Download { target: t2, url }
                                && t2@ == target@ && url@ == strip_ends(raw)
                        },
                    },
                },
                (InstallState::Download { target, .. }, InstallEvent::Saved { ok }) => if ok {
                    next.state matches InstallState::Extract { target: t2 } && t2@
                        == target@
                } else {
                    next.state matches InstallState::Done { result } && result == Result::<
                        InstallOutcome,
                        FatalError,
                    >::Err(FatalError::DownloadFailed)
                },
                (InstallState::Extract { target }, InstallEvent::Extracted { .. }) => next.state
                    matches InstallState::Cleanup { target: t2 } && t2@ == target@,
                (InstallState::Cleanup { target }, InstallEvent::Cleaned { ok }) => if !ok {
                    next.state matches InstallState::Done { result } && result == Result::<
                        InstallOutcome,
                        FatalError,
                    >::Err(FatalError::FilesystemFailed)
                } else if self.kind is Loader {
                    next.state matches InstallState::Finalize { target: t2 } && t2@
                        == target@
                } else {
                    next.state matches InstallState::Done { result } && result == Result::<
                        InstallOutcome,
                        FatalError,
                    >::Ok(InstallOutcome::Success)
                },
                (InstallState::Finalize { .. }, InstallEvent::Finalized { ok }) => next.state
                    matches InstallState::Done { result } && result == (if ok {
                    Result::<InstallOutcome, FatalError>::Ok(InstallOutcome::Success)
                } else {
                    Result::<InstallOutcome, FatalError>::Err(FatalError::FilesystemFailed)
                }),
                _ => true,
            }),
    {
        let InstallFlow { kind, extract_warning, state } = self;
        match (state, ev) {
            (InstallState::Probe, InstallEvent::Probed { found }) => match found {
                Option::Some(target) => InstallFlow {
                    kind,
                    extract_warning,
                    state: InstallState::Gate { target },
                },
                Option::None => InstallFlow {
                    kind,
                    extract_warning,
                    state: InstallState::Done {
                        result: Result::Ok(InstallOutcome::NotFound),
                    },
                },
            },
            (InstallState::Gate { target }, InstallEvent::Gated { has_exe, has_marker }) => {
                if !has_exe {
                    InstallFlow {
                        kind,
                        extract_warning,
                        state: InstallState::Done {
                            result: Result::Ok(InstallOutcome::InvalidTarget),
                        },
                    }
                } else if kind == LoaderKind::Loader && has_marker {
                    InstallFlow {
                        kind,
                        extract_warning,
                        state: InstallState::Done {
                            result: Result::Ok(InstallOutcome::AlreadyInstalled),
                        },
                    }
                } else if kind == LoaderKind::RuntimePatcher && !has_marker {
                    InstallFlow {
                        kind,
                        extract_warning,
                        state: InstallState::Done {
                            result: Result::Ok(InstallOutcome::NotPrerequisiteMet),
                        },
                    }
                } else {
                    InstallFlow { kind, extract_warning, state: InstallState::Fetch { target } }
                }
            },
            (InstallState::Fetch { target }, InstallEvent::FeedArrived { body }) => match body {
                Option::None => InstallFlow {
                    kind,
                    extract_warning,
                    state: InstallState::Done {
                        result: Result::Err(FatalError::NetworkDown),
                    },
                },
                Option::Some(b) => match resolve_asset_url(&kind, b.as_str()) {
                    Option::None => InstallFlow {
                        kind,
                        extract_warning,
                        state: InstallState::Done {
                            result: Result::Err(FatalError::MalformedFeed),
                        },
                    },
                    Option::Some(raw) => {
                        let url = String::from_str(rem_first_and_last(raw.as_str()));
                        if url.as_str().unicode_len() == 0 {
                            InstallFlow {
                                kind,
                                extract_warning,
                                state: InstallState::Done {
                                    result: Result::Err(FatalError::NoMatchingAsset),
                                },
                            }
                        } else {
                            InstallFlow {
                                kind,
                                extract_warning,
                                state: InstallState::Download { target, url },
                            }
                        }
                    },
                },
            },
            (InstallState::Download { target, url: _ }, InstallEvent::Saved { ok }) => {
                if ok {
                    InstallFlow { kind, extract_warning, state: InstallState::Extract { target } }
                } else {
                    InstallFlow {
                        kind,
                        extract_warning,
                        state: InstallState::Done {
                            result: Result::Err(FatalError::DownloadFailed),
                        },
                    }
                }
            },
            (InstallState::Extract { target }, InstallEvent::Extracted { ok }) => InstallFlow {
                kind,
                extract_warning: extract_warning || !ok,
                state: InstallState::Cleanup { target },
            },
            (InstallState::Cleanup { target }, InstallEvent::Cleaned { ok }) => {
                if !ok {
                    InstallFlow {
                        kind,
                        extract_warning,
                        state: InstallState::Done {
                            result: Result::Err(FatalError::FilesystemFailed),
                        },
                    }
                } else if kind == LoaderKind::Loader {
                    InstallFlow { kind, extract_warning, state: InstallState::Finalize { target } }
                } else {
                    InstallFlow {
                        kind,
                        extract_warning,
                        state: InstallState::Done {
                            result: Result::Ok(InstallOutcome::Success),
                        },
                    }
                }
            },
            (InstallState::Finalize { target: _ }, InstallEvent::Finalized { ok }) => InstallFlow {
                kind,
                extract_warning,
                state: InstallState::Done {
                    result: if ok {
                        Result::Ok(InstallOutcome::Success)
                    } else {
                        Result::Err(FatalError::FilesystemFailed)
                    },
                },
            },
            _ => unreached(),
        }
    }
}

/// The wire status string for an install result, exactly as the UI
/// shell expects it; a fatal fault maps to a human-readable line.
pub fn install_code(r: &Result<InstallOutcome, FatalError>) -> (s: String)
    ensures
        *r == Result::<InstallOutcome, FatalError>::Ok(InstallOutcome::NotFound) ==> s@
            == "notfound"@,
        *r == Result::<InstallOutcome, FatalError>::Ok(InstallOutcome::InvalidTarget) ==> s@
            == "not-valid"@,
        *r == Result::<InstallOutcome, FatalError>::Ok(InstallOutcome::AlreadyInstalled)
            ==> s@ == "exists"@,
        *r == Result::<InstallOutcome, FatalError>::Ok(InstallOutcome::NotPrerequisiteMet)
            ==> s@ == "notbep"@,
        *r == Result::<InstallOutcome, FatalError>::Ok(InstallOutcome::Success) ==> s@
            == "Success"@,
        *r == Result::<InstallOutcome, FatalError>::Err(FatalError::NetworkDown) ==> s@
            == "failed to get response"@,
        *r == Result::<InstallOutcome, FatalError>::Err(FatalError::MalformedFeed) ==> s@
            == "JSON was not well-formatted"@,
        *r == Result::<InstallOutcome, FatalError>::Err(FatalError::NoMatchingAsset) ==> s@
            == "no release asset matched"@,
        *r == Result::<InstallOutcome, FatalError>::Err(FatalError::DownloadFailed) ==> s@
            == "request failed"@,
        *r == Result::<InstallOutcome, FatalError>::Err(FatalError::FilesystemFailed) ==> s@
            == "failed to update files"@,
{
    match r {
        Result::Ok(InstallOutcome::NotFound) => String::from_str("notfound"),
        Result::Ok(InstallOutcome::InvalidTarget) => String::from_str("not-valid"),
        Result::Ok(InstallOutcome::AlreadyInstalled) => String::from_str("exists"),
        Result::Ok(InstallOutcome::NotPrerequisiteMet) => String::from_str("notbep"),
        Result::Ok(InstallOutcome::Success) => String::from_str("Success"),
        Result::Err(FatalError::NetworkDown) => String::from_str("failed to get response"),
        Result::Err(FatalError::MalformedFeed) => String::from_str(
            "JSON was not well-formatted",
        ),
        Result::Err(FatalError::NoMatchingAsset) => String::from_str(
            "no release asset matched",
        ),
        Result::Err(FatalError::DownloadFailed) => String::from_str("request failed"),
        Result::Err(FatalError::FilesystemFailed) => String::from_str(
            "failed to update files",
        ),
    }
}

} // verus!
