//! The phases of a relocation, the events that move it from one to the next,
//! and the filesystem work each phase asks for.

use vstd::prelude::*;
use crate::destination::destination_of;
use crate::diagnostic::{
    copied_text, copy_failed_text, deleted_text, lemma_lines_name_their_subject,
    missing_input_text, occurs_in, DiagnosticView, Stream,
};
use crate::error::{FileError, OsError};

verus! {

/// How far a relocation has come.
#[derive(Debug, PartialEq, Eq)]
pub enum Phase {
    /// Nothing is known about the input yet.
    Start,
    /// The input exists; it has not been copied.
    Validated,
    /// The copy is in place; the source is still there.
    Copied,
    /// The copy is in place and the source is gone: the one successful end.
    Deleted,
    /// The run has stopped for the given reason.
    Failed(FileError),
}

/// What the driver found out by performing the pending action.
#[derive(Debug, PartialEq, Eq)]
pub enum Event {
    /// Whether the input path names something that exists.
    Existence(bool),
    /// The copy finished: the number of bytes written, or the system's error.
    CopyOutcome(Result<u64, OsError>),
    /// The removal of the source finished, or failed with the system's error.
    DeleteOutcome(Result<(), OsError>),
}

/// The filesystem work a relocation asks its driver to perform next.
#[derive(Debug, Clone, Copy, PartialEq, Eq)]
pub enum Action<'a> {
    /// Find out whether `path` exists; answer with [`Event::Existence`].
    CheckExists { path: &'a str },
    /// Copy the bytes of `from` to `to`; answer with [`Event::CopyOutcome`].
    Copy { from: &'a str, to: &'a str },
    /// Remove `path`; answer with [`Event::DeleteOutcome`].
    Delete { path: &'a str },
    /// Nothing is left to do.
    Finish,
}

/// An action as a mathematical value.
pub enum ActionView {
    CheckExists { path: Seq<char> },
    Copy { from: Seq<char>, to: Seq<char> },
    Delete { path: Seq<char> },
    Finish,
}

impl<'a> View for Action<'a> {
    type V = ActionView;

    open spec fn view(&self) -> ActionView {
        match *self {
            Action::CheckExists { path } => ActionView::CheckExists { path: path@ },
            Action::Copy { from, to } => ActionView::Copy { from: from@, to: to@ },
            Action::Delete { path } => ActionView::Delete { path: path@ },
            Action::Finish => ActionView::Finish,
        }
    }
}

/// Whether a phase is an end of the run.
pub open spec fn finished(phase: Phase) -> bool {
    phase is Deleted || phase is Failed
}

/// The action that is pending in `phase` for the input `file`.
pub open spec fn requested(file: Seq<char>, phase: Phase) -> ActionView {
    match phase {
        Phase::Start => ActionView::CheckExists { path: file },
        Phase::Validated => ActionView::Copy { from: file, to: destination_of(file) },
        Phase::Copied => ActionView::Delete { path: file },
        Phase::Deleted | Phase::Failed(_) => ActionView::Finish,
    }
}

/// The phase that follows `phase` once `event` is known. An event that does
/// not answer the pending action changes nothing.
pub open spec fn step(phase: Phase, event: Event) -> Phase {
    match (phase, event) {
        (Phase::Start, Event::Existence(true)) => Phase::Validated,
        (Phase::Start, Event::Existence(false)) => Phase::Failed(FileError::NoFileSpecified),
        (Phase::Validated, Event::CopyOutcome(Ok(_))) => Phase::Copied,
        (Phase::Validated, Event::CopyOutcome(Err(e))) => Phase::Failed(FileError::CopyError(e)),
        (Phase::Copied, Event::DeleteOutcome(Ok(_))) => Phase::Deleted,
        (Phase::Copied, Event::DeleteOutcome(Err(e))) => Phase::Failed(
            FileError::DeleteError(e),
        ),
        _ => phase,
    }
}

/// The line to report when `event` arrives in `phase`, if there is one. A
/// failed delete and a confirmed input are passed over in silence.
pub open spec fn reported(file: Seq<char>, phase: Phase, event: Event) -> Option<
    DiagnosticView,
> {
    match (phase, event) {
        (Phase::Start, Event::Existence(false)) => Some(
            DiagnosticView { stream: Stream::Error, text: missing_input_text(file) },
        ),
        (Phase::Validated, Event::CopyOutcome(Ok(bytes))) => Some(
            DiagnosticView {
                stream: Stream::Output,
                text: copied_text(bytes as nat, destination_of(file)),
            },
        ),
        (Phase::Validated, Event::CopyOutcome(Err(e))) => Some(
            DiagnosticView {
                stream: Stream::Error,
                text: copy_failed_text(FileError::CopyError(e)),
            },
        ),
        (Phase::Copied, Event::DeleteOutcome(Ok(_))) => Some(
            DiagnosticView { stream: Stream::Output, text: deleted_text() },
        ),
        _ => None,
    }
}

/// What the run as a whole returns once it is in `phase`: nothing before the
/// end, success in `Deleted`, and the recorded error in `Failed`.
pub open spec fn verdict(phase: Phase) -> Option<Result<(), FileError>> {
    match phase {
        Phase::Deleted => Some(Ok(())),
        Phase::Failed(e) => Some(Err(e)),
        _ => None,
    }
}

/// Whether `event` is an outcome of the action that is pending in `phase`.
pub open spec fn answers(phase: Phase, event: Event) -> bool {
    match phase {
        Phase::Start => event is Existence,
        Phase::Validated => event is CopyOutcome,
        Phase::Copied => event is DeleteOutcome,
        Phase::Deleted | Phase::Failed(_) => false,
    }
}

/// How many actions a run in `phase` may still ask for.
pub open spec fn actions_left(phase: Phase) -> nat {
    match phase {
        Phase::Start => 3,
        Phase::Validated => 2,
        Phase::Copied => 1,
        Phase::Deleted | Phase::Failed(_) => 0,
    }
}

/// An ended run stays as it is: no event moves it, nothing more is reported,
/// and no filesystem work is asked for.
pub proof fn lemma_finished_is_final(file: Seq<char>, phase: Phase, event: Event)
    requires
        finished(phase),
    ensures
        step(phase, event) == phase,
        reported(file, phase, event) is None,
        requested(file, phase) is Finish,
        verdict(phase) is Some,
{
}

/// Work is pending exactly as long as the run has no verdict, and the one
/// successful verdict belongs to `Deleted`.
pub proof fn lemma_verdict_at_the_end(file: Seq<char>, phase: Phase)
    ensures
        verdict(phase) is Some <==> finished(phase),
        requested(file, phase) is Finish <==> finished(phase),
        verdict(phase) == Some(Ok::<(), FileError>(())) <==> phase is Deleted,
{
}

/// Every answer brings the end nearer, so a driver that performs each pending
/// action and hands back its outcome is done after three actions at most; an
/// event that answers nothing leaves the run where it is.
pub proof fn lemma_answers_make_progress(phase: Phase, event: Event)
    ensures
        answers(phase, event) ==> actions_left(step(phase, event)) < actions_left(phase),
        !answers(phase, event) ==> step(phase, event) == phase,
        actions_left(phase) == 0 <==> finished(phase),
{
}

/// No failure is retried or masked: an operating-system error that answers
/// the pending copy or removal ends the run at once, as the error of that
/// phase and with the system's error inside.
pub proof fn lemma_os_failure_ends_the_run(e: OsError)
    ensures
        step(Phase::Validated, Event::CopyOutcome(Err(e))) == Phase::Failed(
            FileError::CopyError(e),
        ),
        step(Phase::Copied, Event::DeleteOutcome(Err(e))) == Phase::Failed(
            FileError::DeleteError(e),
        ),
        verdict(step(Phase::Validated, Event::CopyOutcome(Err(e)))) == Some(
            Err::<(), FileError>(FileError::CopyError(e)),
        ),
        verdict(step(Phase::Copied, Event::DeleteOutcome(Err(e)))) == Some(
            Err::<(), FileError>(FileError::DeleteError(e)),
        ),
{
}

/// Each phase fails in its own way, and the failure keeps the operating
/// system's error: a run can only stop on a missing input in `Start`, on the
/// copy's own error in `Validated`, and on the removal's own error in `Copied`.
pub proof fn lemma_failure_names_its_phase(phase: Phase, event: Event)
    requires
        !finished(phase),
        step(phase, event) is Failed,
    ensures
        match step(phase, event)->Failed_0 {
            FileError::NoFileSpecified => phase is Start && event == Event::Existence(false),
            FileError::CopyError(e) => phase is Validated && event == Event::CopyOutcome(
                Err(e),
            ),
            FileError::DeleteError(e) => phase is Copied && event == Event::DeleteOutcome(
                Err(e),
            ),
        },
{
}

/// An input that does not exist ends the run at once with `NoFileSpecified`,
/// and the line reported on the error stream quotes the path in full.
pub proof fn lemma_missing_input(file: Seq<char>)
    ensures
        step(Phase::Start, Event::Existence(false)) == Phase::Failed(
            FileError::NoFileSpecified,
        ),
        verdict(step(Phase::Start, Event::Existence(false))) == Some(
            Err::<(), FileError>(FileError::NoFileSpecified),
        ),
        reported(file, Phase::Start, Event::Existence(false)) == Some(
            (DiagnosticView { stream: Stream::Error, text: missing_input_text(file) }),
        ),
        occurs_in(file, missing_input_text(file)),
{
    lemma_lines_name_their_subject(file, 0, FileError::NoFileSpecified);
}

/// When the input exists and both the copy and the removal go through, the
/// run asks, in this order, to check the input, to copy it to its destination
/// and to remove it, and then ends in success.
pub proof fn lemma_successful_run(file: Seq<char>, bytes: u64)
    ensures
        ({
            let validated = step(Phase::Start, Event::Existence(true));
            let copied = step(validated, Event::CopyOutcome(Ok(bytes)));
            let deleted = step(copied, Event::DeleteOutcome(Ok(())));
            &&& requested(file, Phase::Start) == (ActionView::CheckExists { path: file })
            &&& requested(file, validated) == (ActionView::Copy {
                from: file,
                to: destination_of(file),
            })
            &&& requested(file, copied) == (ActionView::Delete { path: file })
            &&& requested(file, deleted) == ActionView::Finish
            &&& verdict(deleted) == Some(Ok::<(), FileError>(()))
        }),
{
}

} // verus!
