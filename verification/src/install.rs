//! The Install Orchestrator: walks a descriptor's file list in order,
//! reacts to each file's outcome, tells the shell which events to emit and
//! when to abort, and on a clean run produces the install record.
//!
//! The asymmetries of the error handling are deliberate: a stream failure
//! emits a failure event and then aborts; a fetch-initiation failure
//! aborts without any event; a destination-creation failure also aborts
//! without any event, before any network activity for that file.

use vstd::prelude::*;

use crate::data::ModrinthFile;
use crate::data::ModrinthModData;
use crate::data::SavedModEntry;
use crate::data::filenames_of;
use crate::data::lemma_filenames_of_take_push;
use crate::data::lemma_string_views_push;
use crate::data::string_views;
use crate::events::InstallEvent;
use crate::events::ModDownloadErrorPayload;
use crate::events::ModDownloadedPayload;
use crate::events::is_completion_event;
use crate::events::is_failure_event;
use crate::outcome::FileOutcome;
use crate::outcome::InstallError;

verus! {

/// Where an install run stands: still working through the list, finished
/// with a record produced, or aborted by a fatal error.
#[derive(Clone, Copy, Debug, PartialEq, Eq)]
pub enum Phase {
    Running,
    Finished,
    Aborted,
}

/// What the shell must do right after reporting one file's outcome.
#[derive(Debug, PartialEq, Eq)]
pub enum StepAction {
    /// Emit the completion event, then move on to the next file.
    Proceed(ModDownloadedPayload),
    /// Emit the failure event, then return the error; the install is over.
    EmitAndAbort(ModDownloadErrorPayload, InstallError),
    /// Return the error without emitting anything; the install is over.
    Abort(InstallError),
}

/// The orchestrator's state for one install call: the descriptor and pack
/// identifier it was started with, how many files are done, and the names
/// of the files recorded so far.
pub struct Installer<'a> {
    data: &'a ModrinthModData,
    pack_id: &'a String,
    next: usize,
    filenames: Vec<String>,
    phase: Phase,
}

impl<'a> Installer<'a> {
    /// The descriptor this run installs.
    pub closed spec fn descriptor(self) -> ModrinthModData {
        *self.data
    }

    /// The pack identifier every event of this run carries.
    pub closed spec fn pack_view(self) -> Seq<char> {
        self.pack_id@
    }

    /// How many files have completed; also the index of the file the run
    /// works on next.
    pub closed spec fn done_count(self) -> int {
        self.next as int
    }

    /// The names recorded so far, in download order.
    pub closed spec fn recorded_names(self) -> Seq<Seq<char>> {
        string_views(self.filenames@)
    }

    /// The run is still working through the list.
    pub closed spec fn is_running(self) -> bool {
        self.phase is Running
    }

    /// The run ended with a record.
    pub closed spec fn is_finished(self) -> bool {
        self.phase is Finished
    }

    /// The run ended with a fatal error and no record.
    pub closed spec fn is_aborted(self) -> bool {
        self.phase is Aborted
    }

    /// The recorded names are exactly the names of the files done so far.
    pub closed spec fn wf(self) -> bool {
        &&& 0 <= self.done_count() <= self.descriptor().files@.len()
        &&& self.recorded_names() == filenames_of(
            self.descriptor().files@.take(self.done_count()),
        )
    }

    /// Start an install of one descriptor into one pack. Nothing is done
    /// yet and nothing is recorded.
    pub fn new(data: &'a ModrinthModData, pack_id: &'a String) -> (r: Installer<'a>)
        ensures
            r.wf(),
            r.is_running(),
            r.descriptor() == *data,
            r.pack_view() == pack_id@,
            r.done_count() == 0,
            r.recorded_names() == Seq::<Seq<char>>::empty(),
    {
        let r = Installer {
            data,
            pack_id,
            next: 0,
            filenames: Vec::new(),
            phase: Phase::Running,
        };
        proof {
            assert(string_views(r.filenames@) =~= Seq::<Seq<char>>::empty());
            assert(filenames_of(data.files@.take(0)) =~= Seq::<Seq<char>>::empty());
        }
        r
    }

    /// The file the shell must download next, in list order: the file at
    /// the done count, as long as the run is still going and files remain.
    pub fn next_file(&self) -> (r: Option<&ModrinthFile>)
        ensures
            (r is Some) <==> (self.is_running() && self.done_count()
                < self.descriptor().files@.len()),
            r matches Some(f) ==> *f == self.descriptor().files@[self.done_count()],
    {
        match self.phase {
            Phase::Running => {
                if self.next < self.data.files.len() {
                    Some(&self.data.files[self.next])
                } else {
                    None
                }
            },
            _ => None,
        }
    }

    /// React to the outcome of the file at the current index.
    ///
    /// A completed file is recorded under its name and answered with the
    /// completion event. A stream failure is answered with the failure
    /// event for that file and the fatal stream error. A fetch-initiation
    /// failure and a creation failure abort with their errors and no
    /// event. Nothing already recorded is ever dropped or reordered.
    pub fn on_file_outcome(&mut self, outcome: FileOutcome) -> (r: StepAction)
        requires
            old(self).wf(),
            old(self).is_running(),
            old(self).done_count() < old(self).descriptor().files@.len(),
        ensures
            final(self).wf(),
            final(self).descriptor() == old(self).descriptor(),
            final(self).pack_view() == old(self).pack_view(),
            match outcome {
                FileOutcome::Completed => {
                    &&& final(self).is_running()
                    &&& final(self).done_count() == old(self).done_count() + 1
                    &&& final(self).recorded_names() == old(self).recorded_names().push(
                        old(self).descriptor().files@[old(self).done_count()].filename@,
                    )
                    &&& r matches StepAction::Proceed(p) && p.mod_id@ == old(
                        self,
                    ).descriptor().id@ && p.pack_id@ == old(self).pack_view()
                },
                FileOutcome::StreamFailed(m) => {
                    &&& final(self).is_aborted()
                    &&& final(self).done_count() == old(self).done_count()
                    &&& final(self).recorded_names() == old(self).recorded_names()
                    &&& r matches StepAction::EmitAndAbort(p, e) && p.mod_id@ == old(
                        self,
                    ).descriptor().id@ && p.pack_id@ == old(self).pack_view() && p.file_name@
                        == old(self).descriptor().files@[old(self).done_count()].filename@
                        && p.error@ == m@ && e == InstallError::StreamError(m)
                },
                FileOutcome::FetchFailed(m) => {
                    &&& final(self).is_aborted()
                    &&& final(self).done_count() == old(self).done_count()
                    &&& final(self).recorded_names() == old(self).recorded_names()
                    &&& r == StepAction::Abort(InstallError::FetchError(m))
                },
                FileOutcome::CreateFailed(m) => {
                    &&& final(self).is_aborted()
                    &&& final(self).done_count() == old(self).done_count()
                    &&& final(self).recorded_names() == old(self).recorded_names()
                    &&& r == StepAction::Abort(InstallError::LocalIOError(m))
                },
            },
    {
        match outcome {
            FileOutcome::Completed => {
                let name = self.data.files[self.next].filename.clone();
                proof {
                    lemma_string_views_push(self.filenames@, name);
                    lemma_filenames_of_take_push(self.data.files@, self.next as int);
                }
                self.filenames.push(name);
                // the length fits in usize, so the index below it can grow by one
                let _total: usize = self.data.files.len();
                self.next = self.next + 1;
                StepAction::Proceed(
                    ModDownloadedPayload {
                        mod_id: self.data.id.clone(),
                        pack_id: self.pack_id.clone(),
                    },
                )
            },
            FileOutcome::StreamFailed(m) => {
                self.phase = Phase::Aborted;
                let payload = ModDownloadErrorPayload {
                    mod_id: self.data.id.clone(),
                    pack_id: self.pack_id.clone(),
                    file_name: self.data.files[self.next].filename.clone(),
                    error: m.clone(),
                };
                StepAction::EmitAndAbort(payload, InstallError::StreamError(m))
            },
            FileOutcome::FetchFailed(m) => {
                self.phase = Phase::Aborted;
                StepAction::Abort(InstallError::FetchError(m))
            },
            FileOutcome::CreateFailed(m) => {
                self.phase = Phase::Aborted;
                StepAction::Abort(InstallError::LocalIOError(m))
            },
        }
    }

    /// Whether every file of the descriptor has completed, so that the
    /// record can be produced.
    pub fn all_files_done(&self) -> (r: bool)
        ensures
            r == (self.is_running() && self.done_count() == self.descriptor().files@.len()),
    {
        match self.phase {
            Phase::Running => self.next == self.data.files.len(),
            _ => false,
        }
    }

    /// Produce the install record: the descriptor's project and version
    /// identifiers, and the names of all its files, in list order. Only a
    /// run that worked through every file without aborting can produce it.
    pub fn finish(&mut self) -> (r: SavedModEntry)
        requires
            old(self).wf(),
            old(self).is_running(),
            old(self).done_count() == old(self).descriptor().files@.len(),
        ensures
            final(self).is_finished(),
            r.project_id == old(self).descriptor().project_id,
            r.version_id == old(self).descriptor().id,
            string_views(r.filenames@) == filenames_of(old(self).descriptor().files@),
    {
        self.phase = Phase::Finished;
        let mut names: Vec<String> = Vec::new();
        core::mem::swap(&mut names, &mut self.filenames);
        proof {
            assert(old(self).descriptor().files@.take(old(self).done_count()) =~= old(
                self,
            ).descriptor().files@);
        }
        SavedModEntry {
            project_id: self.data.project_id.clone(),
            version_id: self.data.id.clone(),
            filenames: names,
        }
    }
}

/// The index of the first outcome that is not a completion, or the length
/// of the sequence when every outcome is one. An install run works the
/// list in order and stops there.
pub open spec fn first_failure(outcomes: Seq<FileOutcome>) -> int
    decreases outcomes.len(),
{
    if outcomes.len() == 0 {
        0
    } else if !(outcomes[0] is Completed) {
        0
    } else {
        1 + first_failure(outcomes.drop_first())
    }
}

/// Characterizes `first_failure` at a point: if everything before `i`
/// completed, and `i` (when in range) did not, then `i` is where the run
/// stops.
pub proof fn lemma_first_failure_at(outcomes: Seq<FileOutcome>, i: int)
    requires
        0 <= i <= outcomes.len(),
        forall|j: int| 0 <= j < i ==> outcomes[j] is Completed,
        i < outcomes.len() ==> !(outcomes[i] is Completed),
    ensures
        first_failure(outcomes) == i,
    decreases i,
{
    if i == 0 {
    } else {
        assert(outcomes[0] is Completed);
        assert forall|j: int| 0 <= j < i - 1 implies outcomes.drop_first()[j] is Completed by {
            assert(outcomes.drop_first()[j] == outcomes[j + 1]);
        }
        assert(i - 1 < outcomes.drop_first().len() ==> !(outcomes.drop_first()[i - 1]
            is Completed)) by {
            if i < outcomes.len() {
                assert(outcomes.drop_first()[i - 1] == outcomes[i]);
            }
        }
        lemma_first_failure_at(outcomes.drop_first(), i - 1);
    }
}

/// A record is owed exactly when no file fails: the run reaches the end
/// of the list if and only if every outcome is a completion, and where it
/// stops early, the outcome there is the failure and everything before it
/// completed.
pub proof fn lemma_record_iff_all_completed(outcomes: Seq<FileOutcome>)
    ensures
        0 <= first_failure(outcomes) <= outcomes.len(),
        first_failure(outcomes) == outcomes.len() <==> (forall|j: int|
            0 <= j < outcomes.len() ==> outcomes[j] is Completed),
        forall|j: int| 0 <= j < first_failure(outcomes) ==> outcomes[j] is Completed,
        first_failure(outcomes) < outcomes.len() ==> !(outcomes[first_failure(outcomes)]
            is Completed),
    decreases outcomes.len(),
{
    if outcomes.len() == 0 {
    } else if !(outcomes[0] is Completed) {
    } else {
        lemma_record_iff_all_completed(outcomes.drop_first());
        let k = first_failure(outcomes);
        assert(k == 1 + first_failure(outcomes.drop_first()));
        assert forall|j: int| 0 <= j < k implies outcomes[j] is Completed by {
            if j > 0 {
                assert(outcomes.drop_first()[j - 1] == outcomes[j]);
            }
        }
        if k == outcomes.len() {
            assert forall|j: int| 0 <= j < outcomes.len() implies outcomes[j] is Completed by {
                if j > 0 {
                    assert(outcomes.drop_first()[j - 1] == outcomes[j]);
                }
            }
        } else {
            assert(outcomes.drop_first()[k - 1] == outcomes[k]);
        }
    }
}

/// One whole install run, decided by the outcome each file would have:
/// outcome `i` is how downloading file `i` ends if the run reaches it.
///
/// The run walks the list in order and stops at the first outcome that is
/// not a completion. It returns the record exactly when every file
/// completed, the matching error otherwise, and the events that were due:
/// one completion event per completed file, one failure event for a file
/// whose stream failed, and none for a file whose fetch or creation
/// failed.
#[verifier::loop_isolation(false)]
pub fn install_from_outcomes(
    data: &ModrinthModData,
    pack_id: &String,
    outcomes: Vec<FileOutcome>,
) -> (r: (Result<SavedModEntry, InstallError>, Vec<InstallEvent>))
    requires
        outcomes@.len() == data.files@.len(),
    ensures
        ({
            let os = outcomes@;
            let fs = data.files@;
            let k = first_failure(os);
            &&& (r.0 is Ok <==> k == os.len())
            &&& (r.0 matches Ok(rec) ==> rec.project_id == data.project_id && rec.version_id
                == data.id && string_views(rec.filenames@) == filenames_of(fs))
            &&& (k < os.len() ==> (os[k] matches FileOutcome::StreamFailed(m) ==> r.0
                == Result::<SavedModEntry, InstallError>::Err(InstallError::StreamError(m))))
            &&& (k < os.len() ==> (os[k] matches FileOutcome::FetchFailed(m) ==> r.0
                == Result::<SavedModEntry, InstallError>::Err(InstallError::FetchError(m))))
            &&& (k < os.len() ==> (os[k] matches FileOutcome::CreateFailed(m) ==> r.0
                == Result::<SavedModEntry, InstallError>::Err(InstallError::LocalIOError(m))))
            &&& r.1@.len() == (if k < os.len() && os[k] is StreamFailed {
                k + 1
            } else {
                k
            })
            &&& (forall|j: int| 0 <= j < k ==> is_completion_event(r.1@[j], data.id@, pack_id@))
            &&& (k < os.len() ==> (os[k] matches FileOutcome::StreamFailed(m)
                ==> is_failure_event(r.1@[k], data.id@, pack_id@, fs[k].filename@, m@)))
        }),
{
    let ghost os0 = outcomes@;
    let mut remaining = outcomes;
    let mut inst = Installer::new(data, pack_id);
    let mut events: Vec<InstallEvent> = Vec::new();
    let mut done: usize = 0;
    while remaining.len() > 0
        invariant
            inst.wf(),
            inst.is_running(),
            inst.descriptor() == *data,
            inst.pack_view() == pack_id@,
            inst.done_count() == done,
            os0.len() == data.files@.len(),
            done + remaining@.len() == os0.len(),
            remaining@ == os0.skip(done as int),
            forall|j: int| 0 <= j < done ==> os0[j] is Completed,
            events@.len() == done,
            forall|j: int| 0 <= j < done ==> is_completion_event(events@[j], data.id@, pack_id@),
        decreases remaining@.len(),
    {
        proof {
            assert(os0.skip(done as int)[0] == os0[done as int]);
        }
        let outcome = remaining.remove(0);
        proof {
            assert(remaining@ =~= os0.skip(done as int + 1));
        }
        match inst.on_file_outcome(outcome) {
            StepAction::Proceed(p) => {
                events.push(InstallEvent::Downloaded(p));
                done = done + 1;
            },
            StepAction::EmitAndAbort(p, e) => {
                proof {
                    lemma_first_failure_at(os0, done as int);
                }
                events.push(InstallEvent::DownloadError(p));
                return (Result::Err(e), events);
            },
            StepAction::Abort(e) => {
                proof {
                    lemma_first_failure_at(os0, done as int);
                }
                return (Result::Err(e), events);
            },
        }
    }
    proof {
        lemma_first_failure_at(os0, done as int);
    }
    let record = inst.finish();
    (Result::Ok(record), events)
}

} // verus!
