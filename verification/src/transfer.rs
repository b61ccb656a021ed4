//! Accounting of one transfer: bytes stored so far against the declared
//! length, the progress shown for them, and when the transfer is complete.

use crate::error::{fails_with, InstallError, InstallErrorView};
use crate::status::{check_outcome, refusal_of, RequestOutcome};
use vstd::prelude::*;

verus! {

/// How far a transfer has come, as far as that can be said.
#[derive(Debug, Clone, Copy, PartialEq, Eq, Structural)]
pub enum Completion {
    /// No ratio exists: the length was not declared, or it was declared as
    /// zero and bytes arrived all the same.
    Indeterminate,
    /// Hundredths of a percent, rounded down: 10000 is 100%. A transfer that
    /// has received more than was declared is above 10000.
    Hundredths(u128),
}

/// One progress report: the counters and the ratio derived from them.
#[derive(Debug, Clone, Copy, PartialEq, Eq, Structural)]
pub struct ProgressReport {
    pub received: u64,
    pub expected: Option<u64>,
    pub completion: Completion,
}

/// The counters of one transfer.
#[derive(Debug, Clone, Copy, PartialEq, Eq, Structural)]
pub struct TransferProgress {
    /// Bytes stored so far.
    pub received: u64,
    /// The length that the reply declared, where it declared one.
    pub expected: Option<u64>,
}

/// What the caller observed since the last step.
#[derive(Debug, Clone, Copy, PartialEq, Eq, Structural)]
pub enum TransferEvent {
    /// A chunk of `len` bytes arrived and was stored.
    Chunk { len: u64 },
    /// The stream broke off.
    StreamFailed,
    /// A chunk arrived and could not be stored.
    StoreFailed,
    /// The stream ended in good order.
    EndOfStream,
}

/// What the caller does after a step that did not fail.
#[derive(Debug, Clone, Copy, PartialEq, Eq, Structural)]
pub enum TransferStep {
    /// Show the report and wait for the next event.
    Continue(ProgressReport),
    /// The transfer is complete with `bytes` bytes: set the local file back
    /// to its start, so that whoever reads it next reads all of it.
    Rewind { bytes: u64 },
}

/// The ratio of `received` to `expected`. It never divides by zero: an
/// undeclared length has no ratio, and a declared length of zero is complete
/// as long as nothing has arrived.
pub open spec fn completion_of(received: u64, expected: Option<u64>) -> Completion {
    match expected {
        None => Completion::Indeterminate,
        Some(total) => if total > 0 {
            Completion::Hundredths((received * 10000 / (total as int)) as u128)
        } else if received == 0 {
            Completion::Hundredths(10000)
        } else {
            Completion::Indeterminate
        },
    }
}

/// The report for the counters `progress`.
pub open spec fn report_of(progress: TransferProgress) -> ProgressReport {
    ProgressReport {
        received: progress.received,
        expected: progress.expected,
        completion: completion_of(progress.received, progress.expected),
    }
}

/// A transfer falls short when a length was declared and fewer bytes than
/// that have been stored.
pub open spec fn falls_short(progress: TransferProgress) -> bool {
    progress.expected matches Some(total) && progress.received < total
}

/// The counters after `event`. Only a stored chunk changes them.
pub open spec fn counters_after(
    progress: TransferProgress,
    event: TransferEvent,
) -> TransferProgress {
    match event {
        TransferEvent::Chunk { len } => TransferProgress {
            received: (progress.received + len) as u64,
            expected: progress.expected,
        },
        _ => progress,
    }
}

/// What a step answers to `event` in the state `progress`.
pub open spec fn answer_to(progress: TransferProgress, event: TransferEvent) -> Result<
    TransferStep,
    InstallErrorView,
> {
    match event {
        TransferEvent::Chunk { len } => Ok(
            TransferStep::Continue(report_of(counters_after(progress, event))),
        ),
        TransferEvent::EndOfStream => if falls_short(progress) {
            Err(
                InstallErrorView::TransferIncomplete {
                    received: progress.received,
                    expected: progress.expected,
                },
            )
        } else {
            Ok(TransferStep::Rewind { bytes: progress.received })
        },
        _ => Err(
            InstallErrorView::TransferIncomplete {
                received: progress.received,
                expected: progress.expected,
            },
        ),
    }
}

/// The counters after the chunks of the lengths `lens` were stored one after
/// the other.
pub open spec fn after_chunks(progress: TransferProgress, lens: Seq<u64>) -> TransferProgress
    decreases lens.len(),
{
    if lens.len() == 0 {
        progress
    } else {
        counters_after(
            after_chunks(progress, lens.drop_last()),
            TransferEvent::Chunk { len: lens.last() },
        )
    }
}

/// The sum of `lens`.
pub open spec fn total_len(lens: Seq<u64>) -> nat
    decreases lens.len(),
{
    if lens.len() == 0 {
        0
    } else {
        total_len(lens.drop_last()) + lens.last() as nat
    }
}

impl TransferProgress {
    /// Starts the accounting of a transfer from what came of the request for
    /// the asset; `declared` is the length that the reply declared, if any.
    /// Where no reply came, or one with a status that is no success, nothing
    /// is started: the caller has no reason to create a local file.
    pub fn begin(outcome: RequestOutcome, declared: Option<u64>) -> (started: Result<
        TransferProgress,
        InstallError,
    >)
        ensures
            match refusal_of(outcome@) {
                None => started == Ok::<TransferProgress, InstallError>(
                    TransferProgress { received: 0, expected: declared },
                ),
                Some(refusal) => fails_with(started, refusal),
            },
    {
        match check_outcome(outcome) {
            Err(refusal) => Err(refusal),
            Ok(()) => Ok(TransferProgress { received: 0, expected: declared }),
        }
    }

    /// The report for the present counters.
    pub fn report(&self) -> (report: ProgressReport)
        ensures
            report == report_of(*self),
    {
        let completion = match self.expected {
            None => Completion::Indeterminate,
            Some(total) => {
                if total > 0 {
                    let scaled: u128 = self.received as u128 * 10000;
                    Completion::Hundredths(scaled / (total as u128))
                } else if self.received == 0 {
                    Completion::Hundredths(10000)
                } else {
                    Completion::Indeterminate
                }
            },
        };
        ProgressReport { received: self.received, expected: self.expected, completion }
    }

    /// Takes one event of the transfer and says how the caller goes on.
    ///
    /// A stored chunk is added to the count and answered with the new report.
    /// A broken stream and a chunk that could not be stored end the transfer
    /// with [`InstallError::TransferIncomplete`], and so does the end of a
    /// stream that brought fewer bytes than were declared. Any other end of
    /// the stream completes the transfer, also one that brought more bytes
    /// than were declared: only a short stream is incomplete.
    pub fn step(&mut self, event: TransferEvent) -> (answer: Result<TransferStep, InstallError>)
        requires
            event matches TransferEvent::Chunk { len } ==> old(self).received + len <= u64::MAX,
        ensures
            *final(self) == counters_after(*old(self), event),
            match answer_to(*old(self), event) {
                Ok(step) => answer == Ok::<TransferStep, InstallError>(step),
                Err(error) => fails_with(answer, error),
            },
    {
        match event {
            TransferEvent::Chunk { len } => {
                self.received = self.received + len;
                Ok(TransferStep::Continue(self.report()))
            },
            TransferEvent::EndOfStream => {
                let short = match self.expected {
                    Some(total) => self.received < total,
                    None => false,
                };
                if short {
                    Err(
                        InstallError::TransferIncomplete {
                            received: self.received,
                            expected: self.expected,
                        },
                    )
                } else {
                    Ok(TransferStep::Rewind { bytes: self.received })
                }
            },
            _ => Err(
                InstallError::TransferIncomplete {
                    received: self.received,
                    expected: self.expected,
                },
            ),
        }
    }
}

/// Chunks that were stored add up: as long as the sum of `lens` fits the
/// counter, the count after them is the old count plus that sum.
pub proof fn chunks_add_up(progress: TransferProgress, lens: Seq<u64>)
    requires
        progress.received + total_len(lens) <= u64::MAX,
    ensures
        after_chunks(progress, lens).received == progress.received + total_len(lens),
        after_chunks(progress, lens).expected == progress.expected,
    decreases lens.len(),
{
    if lens.len() > 0 {
        chunks_add_up(progress, lens.drop_last());
    }
}

/// The sum of the first chunks of a transfer is no more than the sum of all.
pub proof fn prefix_is_no_longer(lens: Seq<u64>, upto: int)
    requires
        0 <= upto <= lens.len(),
    ensures
        total_len(lens.take(upto)) <= total_len(lens),
    decreases lens.len(),
{
    if upto == lens.len() {
        assert(lens.take(upto) =~= lens);
    } else {
        assert(lens.drop_last().take(upto) =~= lens.take(upto));
        prefix_is_no_longer(lens.drop_last(), upto);
    }
}

/// A transfer whose chunks sum to the declared length never overflows its
/// counter on the way, ends at exactly the declared count, shows 100% in its
/// last report, and is completed by the end of the stream.
pub proof fn declared_length_reached(declared: u64, lens: Seq<u64>)
    requires
        total_len(lens) == declared,
    ensures
        forall|upto: int|
            0 <= upto <= lens.len() ==> (#[trigger] after_chunks(
                TransferProgress { received: 0, expected: Some(declared) },
                lens.take(upto),
            )).received == total_len(lens.take(upto)) <= declared,
        ({
            let start = TransferProgress { received: 0, expected: Some(declared) };
            let last = after_chunks(start, lens);
            &&& last.received == declared
            &&& report_of(last).completion == Completion::Hundredths(10000)
            &&& answer_to(last, TransferEvent::EndOfStream) == Ok::<TransferStep, InstallErrorView>(
                TransferStep::Rewind { bytes: declared },
            )
        }),
{
    let start = TransferProgress { received: 0, expected: Some(declared) };
    assert forall|upto: int| 0 <= upto <= lens.len() implies (#[trigger] after_chunks(
        start,
        lens.take(upto),
    )).received == total_len(lens.take(upto)) <= declared by {
        prefix_is_no_longer(lens, upto);
        chunks_add_up(start, lens.take(upto));
    }
    chunks_add_up(start, lens);
    if declared > 0 {
        assert(declared * 10000 / (declared as int) == 10000) by (nonlinear_arith)
            requires
                declared > 0,
        ;
    }
}

/// Without a declared length every report is indeterminate, no stored chunk
/// is refused, and the end of the stream completes the transfer.
pub proof fn undeclared_length_is_indeterminate(received: u64, len: u64)
    ensures
        ({
            let progress = TransferProgress { received, expected: None };
            &&& report_of(progress).completion == Completion::Indeterminate
            &&& answer_to(progress, TransferEvent::Chunk { len }) matches Ok(
                TransferStep::Continue(report),
            ) && report.completion == Completion::Indeterminate
            &&& answer_to(progress, TransferEvent::EndOfStream) == Ok::<
                TransferStep,
                InstallErrorView,
            >(TransferStep::Rewind { bytes: received })
        }),
{
}

} // verus!
