//! One native engine in a closable cell: the value that the lock of a shared
//! engine handle guards, and the rules by which its holders reach the engine.

use crate::utils::Describe;
use crate::utils::Exception;
use crate::utils::ExceptionKind;
use vstd::prelude::*;

verus! {

/// Why an access to the engine was refused.
#[derive(Clone, Copy, Debug, PartialEq, Eq, Structural)]
pub enum EngineError {
    /// The engine has been closed.
    Closed,
    /// A holder of the engine panicked while it held the lock.
    Poisoned,
}

impl Describe for EngineError {
    open spec fn text(&self) -> Seq<char> {
        match self {
            EngineError::Closed => "Engine has already been closed."@,
            EngineError::Poisoned => "A panic has ocurred while holding a lock on the engine."@,
        }
    }

    open spec fn kind(&self) -> ExceptionKind {
        ExceptionKind::Error
    }

    fn describe(&self) -> (exception: Exception) {
        let message = match self {
            EngineError::Closed => String::from_str("Engine has already been closed."),
            EngineError::Poisoned => String::from_str(
                "A panic has ocurred while holding a lock on the engine.",
            ),
        };
        Exception { kind: ExceptionKind::Error, message }
    }
}

/// What a cell holds: the engine, as long as it has not been closed, and the mark
/// that a holder of the lock panicked.
pub struct EngineState<E> {
    pub engine: Option<E>,
    pub poisoned: bool,
}

/// One thing done to a cell by one of its holders.
pub enum Step<E> {
    /// `with_inner` with a callback that returns and leaves the engine as given.
    Access(E),
    /// `poison`: the lock was found marked by a panic of an earlier holder.
    Poison,
    /// `assert_not_closed`.
    Check,
    /// `close`.
    Close,
}

impl<E> EngineState<E> {
    /// A cell that holds a live engine.
    pub open spec fn open(engine: E) -> Self {
        EngineState { engine: Some(engine), poisoned: false }
    }

    /// The refusal that an access meets in this state; `None` where the engine is
    /// reachable. The mark of a panic is looked at first.
    pub open spec fn refusal(self) -> Option<EngineError> {
        if self.poisoned {
            Some(EngineError::Poisoned)
        } else if self.engine is None {
            Some(EngineError::Closed)
        } else {
            None
        }
    }

    /// The state after one step. A poisoned cell is left as it is by every step,
    /// its engine included.
    pub open spec fn step(self, step: Step<E>) -> Self {
        match step {
            Step::Access(after) => if self.refusal() is None {
                EngineState { engine: Some(after), poisoned: false }
            } else {
                self
            },
            Step::Poison => EngineState { engine: self.engine, poisoned: true },
            Step::Check => self,
            Step::Close => if self.poisoned {
                self
            } else {
                EngineState { engine: None, poisoned: false }
            },
        }
    }

    /// The state after a sequence of steps, first step first.
    pub open spec fn run(self, steps: Seq<Step<E>>) -> Self
        decreases steps.len(),
    {
        if steps.len() == 0 {
            self
        } else {
            self.run(steps.drop_last()).step(steps.last())
        }
    }
}

/// The value that the lock of a shared engine handle guards. Every clone of the
/// handle reaches this one cell, one holder at a time.
pub struct EngineCell<E> {
    engine: Option<E>,
    poisoned: bool,
}

impl<E> View for EngineCell<E> {
    type V = EngineState<E>;

    closed spec fn view(&self) -> EngineState<E> {
        EngineState { engine: self.engine, poisoned: self.poisoned }
    }
}

impl<E> EngineCell<E> {
    /// A cell that holds a live engine.
    pub fn new(engine: E) -> (cell: Self)
        ensures
            cell@ == EngineState::open(engine),
    {
        EngineCell { engine: Some(engine), poisoned: false }
    }

    /// Tells whether the engine can be reached, and if not, why.
    pub fn assert_not_closed(&self) -> (out: Result<(), EngineError>)
        ensures
            out == match self@.refusal() {
                Some(refusal) => Err::<(), EngineError>(refusal),
                None => Ok::<(), EngineError>(()),
            },
    {
        if self.poisoned {
            Err(EngineError::Poisoned)
        } else if self.engine.is_none() {
            Err(EngineError::Closed)
        } else {
            Ok(())
        }
    }

    /// Calls `callback` with the engine, if it is reachable, and hands back what
    /// the callback returns. A cell that is closed or poisoned is left as it is, and
    /// the callback is not called.
    pub fn with_inner<R, F: FnOnce(&mut E) -> R>(&mut self, callback: F) -> (out: Result<
        R,
        EngineError,
    >)
        requires
            forall|engine: &mut E|
                old(self)@.refusal() is None && old(self)@.engine == Some(*engine)
                    ==> callback.requires((engine,)),
        ensures
            match old(self)@.refusal() {
                None => exists|engine: &mut E|
                    {
                        &&& old(self)@.engine == Some(*engine)
                        &&& out matches Ok(value)
                        &&& callback.ensures((engine,), value)
                        &&& final(self)@ == old(self)@.step(Step::Access(*final(engine)))
                    },
                Some(refusal) => out == Err::<R, EngineError>(refusal) && final(self)@ == old(
                    self,
                )@,
            },
    {
        if self.poisoned {
            return Err(EngineError::Poisoned);
        }
        match &mut self.engine {
            None => Err(EngineError::Closed),
            Some(engine) => Ok(callback(engine)),
        }
    }

    /// Marks the cell as poisoned: for the holder that finds the lock marked by a
    /// panic of an earlier holder. The engine stays where it is.
    pub fn poison(&mut self)
        ensures
            final(self)@ == old(self)@.step(Step::Poison),
    {
        self.poisoned = true;
    }

    /// Takes the engine out and drops it. A cell that is closed stays closed, and a
    /// poisoned cell is left as it is, its engine included.
    pub fn close(&mut self)
        ensures
            final(self)@ == old(self)@.step(Step::Close),
    {
        if !self.poisoned {
            self.engine = None;
        }
    }
}

proof fn lemma_stays_open<E>(start: EngineState<E>, steps: Seq<Step<E>>)
    requires
        start.refusal() is None,
        forall|i: int| 0 <= i < steps.len() ==> steps[i] is Access || steps[i] is Check,
    ensures
        start.run(steps).refusal() is None,
    decreases steps.len(),
{
    if steps.len() > 0 {
        lemma_stays_open(start, steps.drop_last());
    }
}

/// As long as no holder closes the engine and no holder panics, every call finds
/// the engine present: it is there after each of the steps.
pub proof fn lemma_open_until_closed<E>(start: EngineState<E>, steps: Seq<Step<E>>)
    requires
        start.refusal() is None,
        forall|i: int| 0 <= i < steps.len() ==> steps[i] is Access || steps[i] is Check,
    ensures
        forall|k: int|
            0 <= k <= steps.len() ==> (#[trigger] start.run(steps.take(k))).refusal() is None,
{
    assert forall|k: int| 0 <= k <= steps.len() implies (#[trigger] start.run(
        steps.take(k),
    )).refusal() is None by {
        lemma_stays_open(start, steps.take(k));
    }
}

/// Nothing brings the engine back: a cell that refuses its callers refuses them
/// after any further steps, through whichever handle they come.
pub proof fn lemma_never_reopens<E>(start: EngineState<E>, steps: Seq<Step<E>>)
    requires
        start.refusal() is Some,
    ensures
        start.run(steps).refusal() is Some,
    decreases steps.len(),
{
    if steps.len() > 0 {
        lemma_never_reopens(start, steps.drop_last());
    }
}

/// Once the engine is closed, every later call finds it closed, as long as no
/// holder panics.
pub proof fn lemma_closed_is_final<E>(start: EngineState<E>, steps: Seq<Step<E>>)
    requires
        start.refusal() == Some(EngineError::Closed),
        forall|i: int| 0 <= i < steps.len() ==> !(steps[i] is Poison),
    ensures
        start.run(steps) == start,
        start.run(steps).refusal() == Some(EngineError::Closed),
    decreases steps.len(),
{
    if steps.len() > 0 {
        lemma_closed_is_final(start, steps.drop_last());
    }
}

/// Closing a cell that is not poisoned leaves it closed for good: after `close`,
/// and after any further steps among which no holder panics, a call is refused as
/// closed.
pub proof fn lemma_close_then_anything<E>(start: EngineState<E>, steps: Seq<Step<E>>)
    requires
        !start.poisoned,
        forall|i: int| 0 <= i < steps.len() ==> !(steps[i] is Poison),
    ensures
        start.step(Step::Close).run(steps).refusal() == Some(EngineError::Closed),
{
    lemma_closed_is_final(start.step(Step::Close), steps);
}

/// Closing twice is the same as closing once, and `close` never leaves an engine
/// within reach.
pub proof fn lemma_close_is_idempotent<E>(state: EngineState<E>)
    ensures
        state.step(Step::Close).step(Step::Close) == state.step(Step::Close),
        state.step(Step::Close).refusal() is Some,
        !state.poisoned ==> state.step(Step::Close).refusal() == Some(EngineError::Closed),
{
}

/// Once a cell is poisoned, every later call is refused as poisoned, and no step
/// changes the cell: `close` leaves the engine in its slot.
pub proof fn lemma_poisoned_is_final<E>(start: EngineState<E>, steps: Seq<Step<E>>)
    ensures
        start.step(Step::Poison).run(steps) == start.step(Step::Poison),
        start.step(Step::Poison).run(steps).refusal() == Some(EngineError::Poisoned),
        start.step(Step::Poison).run(steps).engine == start.engine,
    decreases steps.len(),
{
    if steps.len() > 0 {
        lemma_poisoned_is_final(start, steps.drop_last());
    }
}

} // verus!
