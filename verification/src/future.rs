//! Waiting for the graphics backend.
//!
//! A buffer mapping completes only while the device is polled. Whoever waits
//! for one therefore alternates between asking whether it is there and
//! letting the device make progress. The decisions of that loop are made
//! here; the loop itself belongs to the caller, who owns the device.

use vstd::prelude::*;
use crate::buffer::{spec_unpack_words, unpack_words, PendingRead};
use crate::error::APURRendererError;

verus! {

/// What asking for a result came to.
#[derive(Debug)]
pub enum Poll<R> {
    Ready(R),
    Pending,
}

/// What to do after asking for a result: whether to run the code that makes
/// the backend progress, and what to report to whoever waits.
#[derive(Debug)]
pub struct Pumped<R> {
    pub progress: bool,
    pub result: Poll<R>,
}

/// Decides one round of waiting: a result that is there is passed on; one
/// that is pending is reported as pending after the progress code has run.
pub fn post_pending<R>(polled: Poll<R>) -> (pumped: Pumped<R>)
    ensures
        pumped.result == polled,
        pumped.progress == (polled is Pending),
{
    match polled {
        Poll::Ready(value) => Pumped { progress: false, result: Poll::Ready(value) },
        Poll::Pending => Pumped { progress: true, result: Poll::Pending },
    }
}

/// The number of times the progress code runs while `polls` come in: once
/// for every poll that found nothing.
pub open spec fn progress_runs<R>(polls: Seq<Poll<R>>) -> nat
    decreases polls.len(),
{
    if polls.len() == 0 {
        0
    } else {
        progress_runs(polls.drop_last()) + if polls.last() is Pending {
            1nat
        } else {
            0nat
        }
    }
}

/// A wait that ends with its first result ran the progress code once for
/// each poll before it.
pub proof fn lemma_progress_between_polls<R>(polls: Seq<Poll<R>>)
    requires
        polls.len() > 0,
        polls.last() is Ready,
        forall|i: int| 0 <= i < polls.len() - 1 ==> polls[i] is Pending,
    ensures
        progress_runs(polls) == polls.len() - 1,
{
    lemma_all_pending(polls.drop_last());
}

/// Polls that all found nothing ran the progress code once each.
pub proof fn lemma_all_pending<R>(polls: Seq<Poll<R>>)
    requires
        forall|i: int| 0 <= i < polls.len() ==> polls[i] is Pending,
    ensures
        progress_runs(polls) == polls.len(),
    decreases polls.len(),
{
    if polls.len() > 0 {
        lemma_all_pending(polls.drop_last());
    }
}

/// Where a read of a buffer stands.
#[derive(Debug)]
pub enum ReadStep {
    /// The mapping is not there yet: poll the device and ask again.
    PollDevice(PendingRead),
    /// The mapping came and was read.
    Finished(Result<Vec<u32>, APURRendererError>),
}

/// Takes the read `pending` one step further. While the mapping is pending
/// the device is to be polled and the read stays as it is; once the mapped
/// bytes are there they are read as 32-bit words.
pub fn read_step(pending: PendingRead, mapping: Poll<&[u8]>) -> (step: ReadStep)
    ensures
        match mapping {
            Poll::Pending => step == ReadStep::PollDevice(pending),
            Poll::Ready(bytes) => match step {
                ReadStep::Finished(words) => if bytes@.len() % 4 == 0 {
                    words.is_ok() && words.unwrap()@ == spec_unpack_words(bytes@)
                } else {
                    words == Err::<Vec<u32>, APURRendererError>(
                        APURRendererError::BufferTypeInterpretationFailed,
                    )
                },
                ReadStep::PollDevice(_) => false,
            },
        },
{
    match mapping {
        Poll::Pending => ReadStep::PollDevice(pending),
        Poll::Ready(bytes) => ReadStep::Finished(unpack_words(bytes)),
    }
}

} // verus!
