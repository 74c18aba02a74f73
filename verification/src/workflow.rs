//! The workflow orchestrator. A workflow is a state machine per item:
//! [`Engine::begin`] dispatches it, and each state names one outside
//! operation (delete a file, search the provider, download, write the file)
//! that the hosting program performs before reporting its outcome back
//! through the matching `on_*` step. Every terminal transition, success or
//! failure, clears the item's in-flight marker; no path leaves an item
//! permanently marked busy, and no step touches any other item's state.

use vstd::prelude::*;
use vstd::string::StrSliceExecFns;

use crate::action::ActionDescriptor;
use crate::action::WorkflowAction;
use crate::action::resolve_action;
use crate::action::spec_resolve_action;
use crate::errors::ErrorSlots;
use crate::errors::WorkflowError;
use crate::registry::InstalledModEntry;
use crate::registry::Provider;
use crate::registry::Registry;
use crate::tracker::ProcessingTracker;
use crate::version::ModVersion;

verus! {

/// The reserved id of a locally-added item with no remote identity. Such an
/// item is never eligible for URL re-resolution against a provider.
pub open spec fn is_sentinel_id(id: Seq<char>) -> bool {
    id == seq!['0']
}

/// Whether `id` is the reserved locally-added-item id.
pub fn id_is_sentinel(id: &String) -> (b: bool)
    ensures
        b == is_sentinel_id(id@),
{
    let s = id.as_str();
    let n = s.unicode_len();
    if n != 1 {
        proof {
            assert(seq!['0'].len() == 1);
        }
        false
    } else {
        let c = s.get_char(0);
        proof {
            assert(seq!['0'].len() == 1);
            assert(seq!['0'][0] == '0');
            if c == '0' {
                assert(id@ =~= seq!['0']);
            } else {
                if id@ == seq!['0'] {
                    assert(id@[0] == '0');
                }
            }
        }
        c == '0'
    }
}

/// The operation a workflow is waiting on. Each state names what the hosting
/// program must do next, and which step reports the outcome back.
#[derive(Clone, Copy, PartialEq, Eq, Structural, Debug)]
pub enum WorkflowState {
    /// Delete the artifact named by `old_file`, then call
    /// [`Engine::on_file_removed`].
    Removing,
    /// Search the provider for the item's display name, then call
    /// [`Engine::on_search_done`].
    ResolvingUrl,
    /// Fetch the version's download URL, then call
    /// [`Engine::on_downloaded`].
    Downloading,
    /// Write the downloaded bytes under `folder`, then call
    /// [`Engine::on_file_written`].
    Installing,
}

/// One in-flight workflow: the identity of the item, the version record it
/// acts on, and the operation it is waiting on.
pub struct WorkflowRun {
    pub mod_id: String,
    pub mod_name: String,
    pub version: ModVersion,
    pub provider: Provider,
    pub action: WorkflowAction,
    pub folder: String,
    pub old_file: Option<String>,
    pub state: WorkflowState,
}

impl WorkflowRun {
    /// What each state guarantees about the run: a removal knows which file
    /// to delete, URL resolution only happens for a non-sentinel item whose
    /// chosen version lacks a URL, and a download or install has one.
    pub open spec fn wf(self) -> bool {
        match self.state {
            WorkflowState::Removing => (self.action == WorkflowAction::Remove || self.action
                == WorkflowAction::Update) && self.old_file is Some,
            WorkflowState::ResolvingUrl => self.action != WorkflowAction::Remove
                && self.version.download_url is None && !is_sentinel_id(self.mod_id@),
            WorkflowState::Downloading => self.action != WorkflowAction::Remove
                && self.version.download_url is Some,
            WorkflowState::Installing => self.action != WorkflowAction::Remove
                && self.version.download_url is Some,
        }
    }
}

/// What dispatching a workflow returns.
pub enum BeginOutcome {
    /// The item already has a workflow in flight; nothing was changed.
    Busy,
    /// The workflow never started and the in-flight marker was not touched.
    Rejected(WorkflowError),
    /// The workflow started and reached a failure before any outside
    /// operation was needed; the in-flight marker is cleared again.
    Failed(WorkflowError),
    /// The workflow is waiting on the operation named by the run's state.
    InProgress(WorkflowRun),
}

/// What reporting an operation's outcome returns.
pub enum StepOutcome {
    /// The workflow is waiting on the operation named by the run's state.
    InProgress(WorkflowRun),
    /// The workflow completed; the in-flight marker is cleared.
    Done,
    /// The workflow failed; the failure is recorded in the item's message
    /// slot and the in-flight marker is cleared.
    Failed(WorkflowError),
}

/// Where a workflow goes once any old artifact is dealt with: straight to the
/// download when the chosen version has a URL; otherwise to URL resolution,
/// which the sentinel item does not support.
pub open spec fn spec_fetch_step(url_present: bool, sentinel: bool) -> Result<
    WorkflowState,
    WorkflowError,
> {
    if url_present {
        Ok(WorkflowState::Downloading)
    } else if sentinel {
        Err(WorkflowError::UnsupportedLocalOnlyMod)
    } else {
        Ok(WorkflowState::ResolvingUrl)
    }
}

/// The first state a dispatched workflow waits in, or the failure it reaches
/// at once: a remove needs a known local artifact; an update removes the old
/// artifact first when one is known and otherwise continues like an install.
pub open spec fn spec_begin_step(
    action: WorkflowAction,
    has_local_file: bool,
    url_present: bool,
    sentinel: bool,
) -> Result<WorkflowState, WorkflowError> {
    match action {
        WorkflowAction::Remove => if has_local_file {
            Ok(WorkflowState::Removing)
        } else {
            Err(WorkflowError::FileNotFoundLocally)
        },
        WorkflowAction::Update => if has_local_file {
            Ok(WorkflowState::Removing)
        } else {
            spec_fetch_step(url_present, sentinel)
        },
        WorkflowAction::Install => spec_fetch_step(url_present, sentinel),
    }
}

/// Every item other than `id` keeps its in-flight marker, its message slot
/// and its registry entry across the step from `pre` to `post`.
pub open spec fn others_unchanged(pre: Engine, post: Engine, id: Seq<char>) -> bool {
    &&& forall|x: Seq<char>| x != id ==> post.processing(x) == pre.processing(x)
    &&& forall|x: Seq<char>| x != id ==> post.error_of(x) == pre.error_of(x)
    &&& forall|x: Seq<char>|
        x != id ==> post.registry.contains_id(x) == pre.registry.contains_id(x)
    &&& forall|x: Seq<char>|
        x != id && pre.registry.contains_id(x) ==> post.registry.entry_for(x)
            == pre.registry.entry_for(x)
}

/// The orchestration state shared by all workflows: the registry of installed
/// files, the per-item in-flight markers, and the per-item message slots.
/// The hosting layer synchronizes access; each step takes the engine
/// exclusively and touches no state but the stepped item's, so workflows for
/// distinct items interleave freely without corrupting one another.
pub struct Engine {
    pub registry: Registry,
    pub tracker: ProcessingTracker,
    pub errors: ErrorSlots,
}

impl Engine {
    pub open spec fn wf(self) -> bool {
        self.registry.wf() && self.tracker.wf() && self.errors.wf()
    }

    /// A workflow for the item `id` is currently in flight.
    pub open spec fn processing(self, id: Seq<char>) -> bool {
        self.tracker.in_flight(id)
    }

    /// The latest failure recorded for the item `id`, if any.
    pub open spec fn error_of(self, id: Seq<char>) -> Option<WorkflowError> {
        self.errors.error_of(id)
    }

    pub fn new() -> (e: Engine)
        ensures
            e.wf(),
            e.registry.spec_len() == 0,
            forall|x: Seq<char>| !e.processing(x),
            forall|x: Seq<char>| e.error_of(x) is None,
            forall|x: Seq<char>| !e.registry.contains_id(x),
    {
        Engine { registry: Registry::new(), tracker: ProcessingTracker::new(), errors: ErrorSlots::new() }
    }

    /// The trigger descriptor to present for the item `mod_id` against the
    /// candidate version: its install state classified against the registry,
    /// overridden by the in-flight marker and the recorded failure. Cheap and
    /// side-effect-free, recomputed on demand.
    pub fn descriptor(&self, mod_id: &String, candidate_file_id: &String) -> (d:
        ActionDescriptor)
        requires
            self.wf(),
        ensures
            d == spec_resolve_action(
                crate::status::spec_install_status(self.registry, mod_id@, candidate_file_id@),
                self.processing(mod_id@),
                self.error_of(mod_id@) is Some,
            ),
    {
        let info = crate::status::check_install_status(&self.registry, mod_id, candidate_file_id);
        let busy = self.tracker.is_processing(mod_id);
        let last_error = self.errors.get(mod_id);
        resolve_action(&info, busy, last_error)
    }

    /// Record `error` for the item and clear its in-flight marker: the one
    /// way a workflow ends in failure.
    fn fail_run(&mut self, mod_id: &String, error: WorkflowError)
        requires
            old(self).wf(),
        ensures
            final(self).wf(),
            final(self).registry == old(self).registry,
            !final(self).processing(mod_id@),
            final(self).error_of(mod_id@) == Some(error),
            others_unchanged(*old(self), *final(self), mod_id@),
    {
        self.errors.set(mod_id, error);
        self.tracker.set_processing(mod_id, false);
    }

    /// Move a workflow past removal handling: to the download when the
    /// version has a URL, to URL resolution otherwise, or to the failure the
    /// sentinel item forces.
    fn continue_fetch(&mut self, run: WorkflowRun) -> (out: StepOutcome)
        requires
            old(self).wf(),
            old(self).processing(run.mod_id@),
            run.action != WorkflowAction::Remove,
        ensures
            final(self).wf(),
            final(self).registry == old(self).registry,
            others_unchanged(*old(self), *final(self), run.mod_id@),
            match out {
                StepOutcome::InProgress(r2) => {
                    &&& Ok::<WorkflowState, WorkflowError>(r2.state) == spec_fetch_step(
                        run.version.download_url is Some,
                        is_sentinel_id(run.mod_id@),
                    )
                    &&& r2.wf()
                    &&& r2.mod_id == run.mod_id
                    &&& r2.mod_name == run.mod_name
                    &&& r2.version == run.version
                    &&& r2.provider == run.provider
                    &&& r2.action == run.action
                    &&& r2.folder == run.folder
                    &&& r2.old_file == run.old_file
                    &&& final(self).processing(run.mod_id@)
                    &&& final(self).error_of(run.mod_id@) == old(self).error_of(run.mod_id@)
                },
                StepOutcome::Failed(e) => {
                    &&& Err::<WorkflowState, WorkflowError>(e) == spec_fetch_step(
                        run.version.download_url is Some,
                        is_sentinel_id(run.mod_id@),
                    )
                    &&& !final(self).processing(run.mod_id@)
                    &&& final(self).error_of(run.mod_id@) == Some(e)
                },
                StepOutcome::Done => false,
            },
    {
        let url_present = run.version.download_url.is_some();
        if url_present {
            let mut r2 = run;
            r2.state = WorkflowState::Downloading;
            StepOutcome::InProgress(r2)
        } else if id_is_sentinel(&run.mod_id) {
            self.fail_run(&run.mod_id, WorkflowError::UnsupportedLocalOnlyMod);
            StepOutcome::Failed(WorkflowError::UnsupportedLocalOnlyMod)
        } else {
            let mut r2 = run;
            r2.state = WorkflowState::ResolvingUrl;
            StepOutcome::InProgress(r2)
        }
    }

    /// Dispatch a workflow for one item.
    ///
    /// A missing destination folder rejects the attempt before anything is
    /// touched; an item already in flight is refused, which keeps at most one
    /// workflow active per item; otherwise the item is marked in flight, its
    /// message slot is cleared, and the workflow either waits in its first
    /// state or reaches an immediate failure that clears the marker again.
    /// The registry is never touched at dispatch.
    pub fn begin(
        &mut self,
        action: WorkflowAction,
        mod_id: String,
        mod_name: String,
        version: ModVersion,
        provider: Provider,
        folder: Option<String>,
        local_file: Option<String>,
    ) -> (out: BeginOutcome)
        requires
            old(self).wf(),
        ensures
            final(self).wf(),
            final(self).registry == old(self).registry,
            others_unchanged(*old(self), *final(self), mod_id@),
            match out {
                BeginOutcome::Rejected(e) => {
                    &&& e == WorkflowError::NoGameFolder
                    &&& folder is None
                    &&& forall|x: Seq<char>|
                        final(self).processing(x) == old(self).processing(x)
                    &&& final(self).error_of(mod_id@) == Some(WorkflowError::NoGameFolder)
                },
                BeginOutcome::Busy => {
                    &&& folder is Some
                    &&& old(self).processing(mod_id@)
                    &&& *final(self) == *old(self)
                },
                BeginOutcome::Failed(e) => {
                    &&& folder is Some
                    &&& !old(self).processing(mod_id@)
                    &&& Err::<WorkflowState, WorkflowError>(e) == spec_begin_step(
                        action,
                        local_file is Some,
                        version.download_url is Some,
                        is_sentinel_id(mod_id@),
                    )
                    &&& !final(self).processing(mod_id@)
                    &&& final(self).error_of(mod_id@) == Some(e)
                },
                BeginOutcome::InProgress(run) => {
                    &&& folder is Some
                    &&& !old(self).processing(mod_id@)
                    &&& Ok::<WorkflowState, WorkflowError>(run.state) == spec_begin_step(
                        action,
                        local_file is Some,
                        version.download_url is Some,
                        is_sentinel_id(mod_id@),
                    )
                    &&& run.wf()
                    &&& run.mod_id == mod_id
                    &&& run.mod_name == mod_name
                    &&& run.version == version
                    &&& run.provider == provider
                    &&& run.action == action
                    &&& folder matches Some(f) && run.folder == f
                    &&& run.old_file == local_file
                    &&& final(self).processing(mod_id@)
                    &&& final(self).error_of(mod_id@) is None
                },
            },
    {
        let folder = match folder {
            Some(f) => f,
            None => {
                self.errors.set(&mod_id, WorkflowError::NoGameFolder);
                return BeginOutcome::Rejected(WorkflowError::NoGameFolder);
            },
        };
        if self.tracker.is_processing(&mod_id) {
            return BeginOutcome::Busy;
        }
        self.tracker.set_processing(&mod_id, true);
        self.errors.clear(&mod_id);
        let has_local_file = local_file.is_some();
        let needs_removal = match action {
            WorkflowAction::Remove => true,
            WorkflowAction::Update => has_local_file,
            WorkflowAction::Install => false,
        };
        if needs_removal {
            if has_local_file {
                return BeginOutcome::InProgress(
                    WorkflowRun {
                        mod_id,
                        mod_name,
                        version,
                        provider,
                        action,
                        folder,
                        old_file: local_file,
                        state: WorkflowState::Removing,
                    },
                );
            } else {
                self.errors.set(&mod_id, WorkflowError::FileNotFoundLocally);
                self.tracker.set_processing(&mod_id, false);
                return BeginOutcome::Failed(WorkflowError::FileNotFoundLocally);
            }
        }
        let run = WorkflowRun {
            mod_id,
            mod_name,
            version,
            provider,
            action,
            folder,
            old_file: local_file,
            state: WorkflowState::Downloading,
        };
        match self.continue_fetch(run) {
            StepOutcome::InProgress(r2) => BeginOutcome::InProgress(r2),
            StepOutcome::Failed(e) => BeginOutcome::Failed(e),
            StepOutcome::Done => vstd::pervasive::unreached(),
        }
    }

    /// Report the outcome of deleting the old artifact.
    ///
    /// A remove workflow ends here: on success the registry entry is dropped
    /// and the workflow completes; a failed deletion ends it in
    /// `RemoveOldFailed` with the registry untouched. An update records a
    /// failed deletion in the message slot but proceeds to fetch the new
    /// version regardless; only the sentinel rule can still end it here.
    pub fn on_file_removed(&mut self, run: WorkflowRun, removed: bool) -> (out: StepOutcome)
        requires
            old(self).wf(),
            run.wf(),
            run.state == WorkflowState::Removing,
            old(self).processing(run.mod_id@),
        ensures
            final(self).wf(),
            others_unchanged(*old(self), *final(self), run.mod_id@),
            removed ==> !final(self).registry.contains_id(run.mod_id@),
            !removed ==> final(self).registry == old(self).registry,
            (out is Done) == (run.action == WorkflowAction::Remove && removed),
            match out {
                StepOutcome::InProgress(r2) => {
                    &&& run.action == WorkflowAction::Update
                    &&& Ok::<WorkflowState, WorkflowError>(r2.state) == spec_fetch_step(
                        run.version.download_url is Some,
                        is_sentinel_id(run.mod_id@),
                    )
                    &&& r2.wf()
                    &&& r2.mod_id == run.mod_id
                    &&& r2.mod_name == run.mod_name
                    &&& r2.version == run.version
                    &&& r2.provider == run.provider
                    &&& r2.action == run.action
                    &&& r2.folder == run.folder
                    &&& final(self).processing(run.mod_id@)
                    &&& removed ==> final(self).error_of(run.mod_id@) == old(self).error_of(
                        run.mod_id@,
                    )
                    &&& !removed ==> final(self).error_of(run.mod_id@) == Some(
                        WorkflowError::RemoveOldFailed,
                    )
                },
                StepOutcome::Done => {
                    &&& !final(self).processing(run.mod_id@)
                    &&& final(self).error_of(run.mod_id@) == old(self).error_of(run.mod_id@)
                },
                StepOutcome::Failed(e) => {
                    &&& !final(self).processing(run.mod_id@)
                    &&& final(self).error_of(run.mod_id@) == Some(e)
                    &&& run.action == WorkflowAction::Remove ==> (e
                        == WorkflowError::RemoveOldFailed && !removed)
                    &&& run.action == WorkflowAction::Update ==> Err::<
                        WorkflowState,
                        WorkflowError,
                    >(e) == spec_fetch_step(
                        run.version.download_url is Some,
                        is_sentinel_id(run.mod_id@),
                    )
                },
            },
    {
        match run.action {
            WorkflowAction::Remove => {
                if removed {
                    self.registry.remove_id(&run.mod_id);
                    self.tracker.set_processing(&run.mod_id, false);
                    StepOutcome::Done
                } else {
                    self.fail_run(&run.mod_id, WorkflowError::RemoveOldFailed);
                    StepOutcome::Failed(WorkflowError::RemoveOldFailed)
                }
            },
            WorkflowAction::Update | WorkflowAction::Install => {
                if removed {
                    self.registry.remove_id(&run.mod_id);
                } else {
                    self.errors.set(&run.mod_id, WorkflowError::RemoveOldFailed);
                }
                self.continue_fetch(run)
            },
        }
    }

    /// Report the outcome of the exact-name provider search.
    ///
    /// On a found version carrying a URL, the URL alone is adopted into the
    /// in-flight version record — file identity and names remain those of
    /// the originally selected version — and the workflow moves to the
    /// download. A failed search, or one returning no usable URL, ends the
    /// workflow in `ResolveUrlFailed` with the registry untouched.
    pub fn on_search_done(&mut self, run: WorkflowRun, found: Option<ModVersion>) -> (out:
        StepOutcome)
        requires
            old(self).wf(),
            run.wf(),
            run.state == WorkflowState::ResolvingUrl,
            old(self).processing(run.mod_id@),
        ensures
            final(self).wf(),
            final(self).registry == old(self).registry,
            others_unchanged(*old(self), *final(self), run.mod_id@),
            match out {
                StepOutcome::InProgress(r2) => {
                    &&& found matches Some(v) && v.download_url is Some
                        && r2.version.download_url == v.download_url
                    &&& r2.state == WorkflowState::Downloading
                    &&& r2.wf()
                    &&& r2.mod_id == run.mod_id
                    &&& r2.mod_name == run.mod_name
                    &&& r2.version.file_id == run.version.file_id
                    &&& r2.version.file_name == run.version.file_name
                    &&& r2.version.display_name == run.version.display_name
                    &&& r2.provider == run.provider
                    &&& r2.action == run.action
                    &&& r2.folder == run.folder
                    &&& final(self).processing(run.mod_id@)
                    &&& final(self).error_of(run.mod_id@) == old(self).error_of(run.mod_id@)
                },
                StepOutcome::Failed(e) => {
                    &&& e == WorkflowError::ResolveUrlFailed
                    &&& !(found matches Some(v) && v.download_url is Some)
                    &&& !final(self).processing(run.mod_id@)
                    &&& final(self).error_of(run.mod_id@) == Some(e)
                },
                StepOutcome::Done => false,
            },
    {
        match found {
            Some(v) => {
                match v.download_url {
                    Some(url) => {
                        let mut r2 = run;
                        r2.version.download_url = Some(url);
                        r2.state = WorkflowState::Downloading;
                        StepOutcome::InProgress(r2)
                    },
                    None => {
                        self.fail_run(&run.mod_id, WorkflowError::ResolveUrlFailed);
                        StepOutcome::Failed(WorkflowError::ResolveUrlFailed)
                    },
                }
            },
            None => {
                self.fail_run(&run.mod_id, WorkflowError::ResolveUrlFailed);
                StepOutcome::Failed(WorkflowError::ResolveUrlFailed)
            },
        }
    }

    /// Report the outcome of the content transfer. Success moves the
    /// workflow to writing the file; failure ends it in `DownloadFailed`
    /// with the registry untouched.
    pub fn on_downloaded(&mut self, run: WorkflowRun, fetched: bool) -> (out: StepOutcome)
        requires
            old(self).wf(),
            run.wf(),
            run.state == WorkflowState::Downloading,
            old(self).processing(run.mod_id@),
        ensures
            final(self).wf(),
            final(self).registry == old(self).registry,
            others_unchanged(*old(self), *final(self), run.mod_id@),
            (out is InProgress) == fetched,
            match out {
                StepOutcome::InProgress(r2) => {
                    &&& r2.state == WorkflowState::Installing
                    &&& r2.wf()
                    &&& r2.mod_id == run.mod_id
                    &&& r2.mod_name == run.mod_name
                    &&& r2.version == run.version
                    &&& r2.provider == run.provider
                    &&& r2.action == run.action
                    &&& r2.folder == run.folder
                    &&& r2.old_file == run.old_file
                    &&& final(self).processing(run.mod_id@)
                    &&& final(self).error_of(run.mod_id@) == old(self).error_of(run.mod_id@)
                },
                StepOutcome::Failed(e) => {
                    &&& e == WorkflowError::DownloadFailed
                    &&& !final(self).processing(run.mod_id@)
                    &&& final(self).error_of(run.mod_id@) == Some(e)
                },
                StepOutcome::Done => false,
            },
    {
        if fetched {
            let mut r2 = run;
            r2.state = WorkflowState::Installing;
            StepOutcome::InProgress(r2)
        } else {
            self.fail_run(&run.mod_id, WorkflowError::DownloadFailed);
            StepOutcome::Failed(WorkflowError::DownloadFailed)
        }
    }

    /// Report the outcome of writing the downloaded file.
    ///
    /// Success registers the installed version — afterwards the registry
    /// holds exactly one entry for the item, carrying the just-installed
    /// version's file id — and completes the workflow. Failure ends it in
    /// `InstallFailed` with the registry untouched. Either way the item's
    /// in-flight marker is cleared.
    pub fn on_file_written(&mut self, run: WorkflowRun, written: bool) -> (out: StepOutcome)
        requires
            old(self).wf(),
            run.wf(),
            run.state == WorkflowState::Installing,
            old(self).processing(run.mod_id@),
        ensures
            final(self).wf(),
            others_unchanged(*old(self), *final(self), run.mod_id@),
            !final(self).processing(run.mod_id@),
            (out is Done) == written,
            match out {
                StepOutcome::Done => {
                    &&& final(self).registry.contains_id(run.mod_id@)
                    &&& final(self).registry.count_for(run.mod_id@) == 1
                    &&& final(self).registry.entry_for(run.mod_id@).mod_id@ == run.mod_id@
                    &&& final(self).registry.entry_for(run.mod_id@).file_id@
                        == run.version.file_id@
                    &&& final(self).registry.entry_for(run.mod_id@).version_display_name@
                        == run.version.display_name@
                    &&& final(self).registry.entry_for(run.mod_id@).local_file_name@
                        == run.version.file_name@
                    &&& final(self).registry.entry_for(run.mod_id@).provider == run.provider
                    &&& final(self).error_of(run.mod_id@) == old(self).error_of(run.mod_id@)
                },
                StepOutcome::Failed(e) => {
                    &&& e == WorkflowError::InstallFailed
                    &&& final(self).registry == old(self).registry
                    &&& final(self).error_of(run.mod_id@) == Some(e)
                },
                StepOutcome::InProgress(_) => false,
            },
    {
        if written {
            let WorkflowRun { mod_id, version, provider, .. } = run;
            let ModVersion { file_id, file_name, display_name, .. } = version;
            let key = mod_id.clone();
            let entry = InstalledModEntry {
                mod_id,
                file_id,
                version_display_name: display_name,
                provider,
                local_file_name: file_name,
            };
            self.registry.upsert(entry);
            self.tracker.set_processing(&key, false);
            proof {
                self.registry.lemma_unique_count(run.mod_id@);
            }
            StepOutcome::Done
        } else {
            self.fail_run(&run.mod_id, WorkflowError::InstallFailed);
            StepOutcome::Failed(WorkflowError::InstallFailed)
        }
    }
}

} // verus!
