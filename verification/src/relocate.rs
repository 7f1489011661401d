//! The copy-then-delete workflow, run one action at a time.
//!
//! A [`Relocation`] never touches the filesystem. It asks its driver for one
//! [`Action`] at a time, is told the outcome as an [`Event`], and answers with
//! the line to report, if any.

use vstd::prelude::*;
use vstd::string::*;
use crate::destination::{destination_of, destination_path};
use crate::diagnostic::Diagnostic;
use crate::error::{FileError, OsError};
use crate::history::{
    copied_at, lemma_delete_only_after_copy, lemma_success_has_full_history, removal_witnessed,
    replay,
};
use crate::phase::{finished, reported, requested, step, verdict, Action, Event, Phase};

verus! {

/// The copy step, once the driver has made the attempt: the byte count of a
/// finished copy passes through, and the operating system's error becomes a
/// `CopyError` that holds it whole.
pub fn copy_file(outcome: Result<u64, OsError>) -> (r: Result<u64, FileError>)
    ensures
        r == match outcome {
            Ok(bytes) => Ok::<u64, FileError>(bytes),
            Err(e) => Err(FileError::CopyError(e)),
        },
{
    match outcome {
        Ok(bytes) => Ok(bytes),
        Err(e) => Err(FileError::CopyError(e)),
    }
}

/// The removal step, once the driver has made the attempt: success passes
/// through, and the operating system's error becomes a `DeleteError` that
/// holds it whole.
pub fn delete_file(outcome: Result<(), OsError>) -> (r: Result<(), FileError>)
    ensures
        r == match outcome {
            Ok(_) => Ok::<(), FileError>(()),
            Err(e) => Err(FileError::DeleteError(e)),
        },
{
    match outcome {
        Ok(_) => Ok(()),
        Err(e) => Err(FileError::DeleteError(e)),
    }
}

/// How far a run has come, and the events that brought it there.
struct Progress {
    phase: Phase,
    events: Ghost<Seq<Event>>,
}

/// One relocation in progress.
pub struct Relocation {
    file: String,
    destination: String,
    progress: Progress,
}

/// A relocation as a mathematical value: the input path and every event taken
/// in so far, oldest first. The phase is a function of the events.
pub struct RelocationView {
    pub file: Seq<char>,
    pub events: Seq<Event>,
}

impl RelocationView {
    /// The phase the events have led to.
    pub open spec fn phase(self) -> Phase {
        replay(self.events)
    }
}

impl View for Relocation {
    type V = RelocationView;

    closed spec fn view(&self) -> RelocationView {
        RelocationView { file: self.file@, events: self.progress.events@ }
    }
}

impl Relocation {
    #[verifier::type_invariant]
    spec fn well_formed(self) -> bool {
        &&& self.destination@ == destination_of(self.file@)
        &&& self.progress.phase == replay(self.progress.events@)
    }

    /// Begins the relocation of `file`.
    pub fn new(file: &str) -> (r: Relocation)
        ensures
            r@ == (RelocationView { file: file@, events: Seq::empty() }),
            r@.phase() == Phase::Start,
    {
        Relocation {
            file: String::from_str(file),
            destination: destination_path(file),
            progress: Progress { phase: Phase::Start, events: Ghost(Seq::empty()) },
        }
    }

    /// The filesystem work to perform next. A removal is asked for only once
    /// a copy has been reported done.
    pub fn action(&self) -> (a: Action<'_>)
        ensures
            a@ == requested(self@.file, self@.phase()),
            a@ is Delete ==> exists|j: int| copied_at(self@.events, j),
    {
        proof {
            use_type_invariant(self);
            if self.progress.phase is Copied {
                lemma_delete_only_after_copy(self@.file, self@.events);
            }
        }
        match &self.progress.phase {
            Phase::Start => Action::CheckExists { path: self.file.as_str() },
            Phase::Validated => Action::Copy {
                from: self.file.as_str(),
                to: self.destination.as_str(),
            },
            Phase::Copied => Action::Delete { path: self.file.as_str() },
            Phase::Deleted => Action::Finish,
            Phase::Failed(_) => Action::Finish,
        }
    }

    /// Takes in the outcome of the pending action: moves to the next phase and
    /// returns the line to report, if any.
    pub fn advance(&mut self, event: Event) -> (line: Option<Diagnostic>)
        ensures
            final(self)@ == (RelocationView {
                file: old(self)@.file,
                events: old(self)@.events.push(event),
            }),
            final(self)@.phase() == step(old(self)@.phase(), event),
            match reported(old(self)@.file, old(self)@.phase(), event) {
                Some(d) => line matches Some(l) && l@ == d,
                None => line is None,
            },
    {
        let ghost events = self.progress.events@.push(event);
        proof {
            use_type_invariant(&*self);
            assert(events.drop_last() =~= self.progress.events@);
        }
        match &self.progress.phase {
            Phase::Start => match event {
                Event::Existence(true) => {
                    self.progress = Progress { phase: Phase::Validated, events: Ghost(events) };
                    None
                },
                Event::Existence(false) => {
                    self.progress = Progress {
                        phase: Phase::Failed(FileError::NoFileSpecified),
                        events: Ghost(events),
                    };
                    Some(Diagnostic::missing_input(self.file.as_str()))
                },
                _ => {
                    self.progress.events = Ghost(events);
                    None
                },
            },
            Phase::Validated => match event {
                Event::CopyOutcome(outcome) => match copy_file(outcome) {
                    Ok(bytes) => {
                        self.progress = Progress { phase: Phase::Copied, events: Ghost(events) };
                        Some(Diagnostic::copied(bytes, self.destination.as_str()))
                    },
                    Err(error) => {
                        let line = Diagnostic::copy_failed(&error);
                        self.progress = Progress {
                            phase: Phase::Failed(error),
                            events: Ghost(events),
                        };
                        Some(line)
                    },
                },
                _ => {
                    self.progress.events = Ghost(events);
                    None
                },
            },
            Phase::Copied => match event {
                Event::DeleteOutcome(outcome) => match delete_file(outcome) {
                    Ok(_) => {
                        self.progress = Progress { phase: Phase::Deleted, events: Ghost(events) };
                        Some(Diagnostic::deleted())
                    },
                    Err(error) => {
                        self.progress = Progress {
                            phase: Phase::Failed(error),
                            events: Ghost(events),
                        };
                        None
                    },
                },
                _ => {
                    self.progress.events = Ghost(events);
                    None
                },
            },
            Phase::Deleted => {
                self.progress.events = Ghost(events);
                None
            },
            Phase::Failed(_) => {
                self.progress.events = Ghost(events);
                None
            },
        }
    }

    /// The phase the run is in.
    pub fn phase(&self) -> (p: &Phase)
        ensures
            *p == self@.phase(),
    {
        proof {
            use_type_invariant(self);
        }
        &self.progress.phase
    }

    /// Whether the run has ended, in success or in failure.
    pub fn is_finished(&self) -> (done: bool)
        ensures
            done == finished(self@.phase()),
    {
        proof {
            use_type_invariant(self);
        }
        match &self.progress.phase {
            Phase::Deleted => true,
            Phase::Failed(_) => true,
            _ => false,
        }
    }

    /// Ends the run: `None` while work is pending, else what the run returns.
    /// Success is returned only to a run that was told that the input exists,
    /// then that it was copied, then that the source was removed.
    pub fn into_result(self) -> (r: Option<Result<(), FileError>>)
        ensures
            r == verdict(self@.phase()),
            r == Some(Ok::<(), FileError>(())) ==> removal_witnessed(self@.events),
    {
        proof {
            use_type_invariant(&self);
            if self.progress.phase is Deleted {
                lemma_success_has_full_history(self@.events);
            }
        }
        match self.progress.phase {
            Phase::Deleted => Some(Ok(())),
            Phase::Failed(e) => Some(Err(e)),
            _ => None,
        }
    }
}

} // verus!
