//! Playing the steps of an operation: which step comes next, and when the
//! operation is over.

use vstd::prelude::*;
use crate::bus::Step;

verus! {

/// What the host does next while it plays an operation.
#[derive(Debug, PartialEq, Eq)]
pub enum Turn<E> {
    /// Carry out this step and report how it went.
    Perform(Step),
    /// The operation is over, with this result.
    Finished(Result<(), E>),
}

/// The steps of one operation and how far the host has come with them.
///
/// A line error ends the operation at once: no step is tried again, none
/// after the failed one is handed out, and the error comes back as it was
/// reported.
#[derive(Debug)]
pub struct Playback {
    steps: Vec<Step>,
    next: usize,
}

impl Playback {
    #[verifier::type_invariant]
    closed spec fn within(self) -> bool {
        self.next <= self.steps@.len()
    }

    /// The steps of the operation, first to last.
    pub closed spec fn steps(self) -> Seq<Step> {
        self.steps@
    }

    /// How many of the steps are behind: handed out, or given up after an
    /// error.
    pub closed spec fn handed_out(self) -> nat {
        self.next as nat
    }

    /// A playback of `steps` of which none has been handed out.
    pub fn new(steps: Vec<Step>) -> (r: Self)
        ensures
            r.steps() == steps@,
            r.handed_out() == 0,
    {
        Playback { steps, next: 0 }
    }

    /// Takes the outcome of the step handed out last (`Ok` where none has
    /// been) and says what comes next: after an error the operation is over
    /// with that error; otherwise the next step is due, or, past the last
    /// one, the operation is over and has succeeded.
    pub fn resume<E>(&mut self, outcome: Result<(), E>) -> (turn: Turn<E>)
        ensures
            final(self).steps() == old(self).steps(),
            match outcome {
                Err(e) => {
                    &&& turn == Turn::Finished(Err::<(), E>(e))
                    &&& final(self).handed_out() == old(self).steps().len()
                },
                Ok(_) => if old(self).handed_out() < old(self).steps().len() {
                    &&& turn == Turn::<E>::Perform(old(self).steps()[old(self).handed_out() as int])
                    &&& final(self).handed_out() == old(self).handed_out() + 1
                } else {
                    &&& turn == Turn::Finished(Ok::<(), E>(()))
                    &&& final(self).handed_out() == old(self).handed_out()
                },
            },
    {
        proof {
            use_type_invariant(&*self);
        }
        match outcome {
            Err(e) => {
                self.next = self.steps.len();
                Turn::Finished(Err(e))
            },
            Ok(_) => {
                if self.next < self.steps.len() {
                    let step = self.steps[self.next];
                    self.next = self.next + 1;
                    Turn::Perform(step)
                } else {
                    Turn::Finished(Ok(()))
                }
            },
        }
    }
}

} // verus!
