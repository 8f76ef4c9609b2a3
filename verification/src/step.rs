//! Procedures that alternate decisions and work on the device.
//!
//! A procedure of this crate decides what to do next and says so in a [`Step`]. Its caller does
//! it, and resumes the procedure with what came of it.
use vstd::prelude::*;

verus! {

/// What a procedure wants next.
#[derive(Debug)]
pub enum Step<S, A, R> {
    /// Perform `action`, then resume `stage` with its outcome.
    Perform {
        /// Where the procedure stands.
        stage: S,
        /// What to do on the device.
        action: A,
    },
    /// The procedure is over, with this result.
    Finished(R),
}

impl<S, A: View, R> View for Step<S, A, R> {
    type V = Step<S, A::V, R>;

    open spec fn view(&self) -> Step<S, A::V, R> {
        match *self {
            Step::Perform { stage, action } => Step::Perform { stage, action: action.view() },
            Step::Finished(result) => Step::Finished(result),
        }
    }
}

/// In contracts a step is what it is, with the action that its own action is there.
pub proof fn law_step_view<S, A: View, R>(stage: S, action: A, result: R)
    ensures
        (Step::<S, A, R>::Perform { stage, action })@ == (Step::<S, A::V, R>::Perform {
            stage,
            action: action@,
        }),
        Step::<S, A, R>::Finished(result)@ == Step::<S, A::V, R>::Finished(result),
{
}

} // verus!
