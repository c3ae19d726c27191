//! What has to be learned from the capture target and the screen before a
//! pointer event may be acted upon, and how far that has come.

use vstd::prelude::*;

verus! {

/// A question that only the outside can answer.
#[derive(Clone, Copy, Debug, PartialEq, Eq)]
pub enum CaptureQuery {
    /// Activate the capture target, so that it takes the input.
    Activation,
    /// Look up where the capture target sits on the screen.
    Geometry,
    /// Look up the bounds of the screen.
    ScreenBounds,
}

/// How far the questions for one pointer event have come.
#[derive(Clone, Copy, Debug, PartialEq, Eq)]
pub enum CaptureProgress {
    /// The given query is the next to make; all before it succeeded.
    Awaiting(CaptureQuery),
    /// The given query failed. Nothing is asked after a failure.
    Failed(CaptureQuery),
    /// Every query succeeded.
    Ready,
}

/// The progress before anything was asked.
pub open spec fn initial_progress() -> CaptureProgress {
    CaptureProgress::Awaiting(CaptureQuery::Activation)
}

/// The query that follows a successful one, if any: activation, then
/// geometry, then screen bounds.
pub open spec fn query_after(query: CaptureQuery) -> Option<CaptureQuery> {
    match query {
        CaptureQuery::Activation => Some(CaptureQuery::Geometry),
        CaptureQuery::Geometry => Some(CaptureQuery::ScreenBounds),
        CaptureQuery::ScreenBounds => None,
    }
}

/// The progress after the awaited query was answered. Once the progress is
/// `Failed` or `Ready` no answer changes it.
pub open spec fn progress_after(progress: CaptureProgress, succeeded: bool) -> CaptureProgress {
    match progress {
        CaptureProgress::Awaiting(query) => if !succeeded {
            CaptureProgress::Failed(query)
        } else {
            match query_after(query) {
                Some(next) => CaptureProgress::Awaiting(next),
                None => CaptureProgress::Ready,
            }
        },
        CaptureProgress::Failed(_) => progress,
        CaptureProgress::Ready => progress,
    }
}

/// The progress after a run of answers, the first for activation.
pub open spec fn progress_of(answers: Seq<bool>) -> CaptureProgress
    decreases answers.len(),
{
    if answers.len() == 0 {
        initial_progress()
    } else {
        progress_after(progress_of(answers.drop_last()), answers.last())
    }
}

impl CaptureProgress {
    /// The progress before anything was asked: activation comes first.
    pub fn start() -> (progress: Self)
        ensures
            progress == initial_progress(),
    {
        CaptureProgress::Awaiting(CaptureQuery::Activation)
    }

    /// Records the answer to the awaited query.
    pub fn record(self, succeeded: bool) -> (progress: Self)
        ensures
            progress == progress_after(self, succeeded),
    {
        match self {
            CaptureProgress::Awaiting(query) => {
                if !succeeded {
                    CaptureProgress::Failed(query)
                } else {
                    match query {
                        CaptureQuery::Activation => CaptureProgress::Awaiting(
                            CaptureQuery::Geometry,
                        ),
                        CaptureQuery::Geometry => CaptureProgress::Awaiting(
                            CaptureQuery::ScreenBounds,
                        ),
                        CaptureQuery::ScreenBounds => CaptureProgress::Ready,
                    }
                }
            },
            CaptureProgress::Failed(query) => CaptureProgress::Failed(query),
            CaptureProgress::Ready => CaptureProgress::Ready,
        }
    }
}

/// The capture target is ready exactly when activation, geometry and screen
/// bounds were asked for, in that order, and each succeeded.
pub proof fn lemma_ready_iff_three_successes(answers: Seq<bool>)
    ensures
        progress_of(answers) is Ready <==> answers.len() >= 3 && answers[0] && answers[1]
            && answers[2],
        answers.len() == 0 ==> progress_of(answers) == initial_progress(),
        answers.len() >= 1 && !answers[0] ==> progress_of(answers) == CaptureProgress::Failed(
            CaptureQuery::Activation,
        ),
        answers.len() >= 2 && answers[0] && !answers[1] ==> progress_of(answers)
            == CaptureProgress::Failed(CaptureQuery::Geometry),
        answers.len() >= 3 && answers[0] && answers[1] && !answers[2] ==> progress_of(answers)
            == CaptureProgress::Failed(CaptureQuery::ScreenBounds),
        answers.len() == 1 && answers[0] ==> progress_of(answers) == CaptureProgress::Awaiting(
            CaptureQuery::Geometry,
        ),
        answers.len() == 2 && answers[0] && answers[1] ==> progress_of(answers)
            == CaptureProgress::Awaiting(CaptureQuery::ScreenBounds),
    decreases answers.len(),
{
    if answers.len() > 0 {
        let earlier = answers.drop_last();
        lemma_ready_iff_three_successes(earlier);
        assert(forall|i: int| 0 <= i < earlier.len() ==> earlier[i] == answers[i]);
    }
}

} // verus!
