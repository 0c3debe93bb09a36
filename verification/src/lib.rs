//! A minimal generic engine for deterministic finite automata.
//!
//! Three roles compose into one executor. The [`Status`] role supplies the
//! type of automaton configurations, its initial value and its finality
//! predicate. The [`Transition`] role supplies the pure function from a
//! configuration and one input symbol to the next configuration. The
//! [`Automaton`] role is the capability offered to callers: reset to the
//! initial configuration, and execute a whole input sequence, reporting
//! whether the configuration reached is final. [`FiniteStateMachine`] is the
//! one concrete automaton: it holds a single current status and folds the
//! transition function over the input, left to right.

use core::marker::PhantomData;
use vstd::prelude::*;

pub mod power_of_two;

verus! {

/// The status role: the type of automaton configurations, its designated
/// initial value, and the predicate naming the final (accepting) values.
pub trait Status {
    /// The concrete type carrying one automaton configuration.
    type Status;

    /// The starting configuration, as specifications see it.
    spec fn spec_initial() -> Self::Status;

    /// Whether a configuration is final, as specifications see it.
    spec fn spec_is_final(status: Self::Status) -> bool;

    /// Returns the fixed starting configuration.
    fn initial() -> (status: Self::Status)
        ensures
            status == Self::spec_initial(),
    ;

    /// Pure predicate: is this configuration final?
    fn is_final(status: &Self::Status) -> (accepting: bool)
        ensures
            accepting == Self::spec_is_final(*status),
    ;
}

/// The transition role: a pure, total function from a configuration and one
/// input symbol to the next configuration.
pub trait Transition {
    /// The configuration type this transition works on.
    type Status;

    /// The input symbol type this transition consumes.
    type Alphabet;

    /// The transition function, as specifications see it.
    spec fn spec_next(status: Self::Status, symbol: Self::Alphabet) -> Self::Status;

    /// Computes the configuration reached from `status` on reading `symbol`.
    fn next(status: &Self::Status, symbol: &Self::Alphabet) -> (next_status: Self::Status)
        ensures
            next_status == Self::spec_next(*status, *symbol),
    ;
}

/// The abstract model of an automaton's behaviour: the machine state that a
/// reset establishes, the state reached by consuming one symbol, and whether
/// a state rests on a final configuration. The [`Automaton`] capability
/// states its contracts over this model.
pub trait AutomatonModel<Alphabet>: Sized {
    /// The machine state that a reset establishes, independent of the state
    /// held before it.
    spec fn spec_reset() -> Self;

    /// The machine state reached from `self` by consuming one symbol.
    spec fn spec_step(self, symbol: Alphabet) -> Self;

    /// Whether the machine currently rests on a final configuration.
    spec fn spec_accepting(self) -> bool;
}

/// The machine reached from `m` by consuming every symbol of `input` in
/// order: the left-to-right fold of the abstract step over the sequence.
pub open spec fn run<Alphabet, M: AutomatonModel<Alphabet>>(m: M, input: Seq<Alphabet>) -> M
    decreases input.len(),
{
    if input.len() == 0 {
        m
    } else {
        run(m.spec_step(input[0]), input.drop_first())
    }
}

/// The automaton capability offered to callers: reset to the initial
/// configuration, and execute a whole input sequence. `execute` is
/// cumulative by design: it folds from whatever machine state the previous
/// call left behind, and only `reset` returns to the initial configuration.
pub trait Automaton<Alphabet>: AutomatonModel<Alphabet> {
    /// Sets the machine back to the initial configuration, discarding
    /// whatever configuration was reached previously.
    fn reset(&mut self)
        ensures
            *final(self) == Self::spec_reset(),
    ;

    /// Consumes every symbol of `input` in order, starting from the state the
    /// machine currently holds, and reports whether the configuration reached
    /// is final. The machine is not reset first: consecutive calls are
    /// cumulative.
    fn execute(&mut self, input: &[Alphabet]) -> (accepted: bool)
        ensures
            *final(self) == run(*old(self), input@),
            accepted == run(*old(self), input@).spec_accepting(),
    ;
}

/// Consuming one more symbol after a run is one more abstract step: the fold
/// commutes with appending a symbol at the right end.
pub proof fn lemma_run_push<Alphabet, M: AutomatonModel<Alphabet>>(
    m: M,
    input: Seq<Alphabet>,
    symbol: Alphabet,
)
    ensures
        run(m, input.push(symbol)) == run(m, input).spec_step(symbol),
    decreases input.len(),
{
    let pushed = input.push(symbol);
    if input.len() == 0 {
        assert(pushed[0] == symbol);
        assert(pushed.drop_first() =~= Seq::<Alphabet>::empty());
        assert(run(m, pushed) == run(m.spec_step(symbol), pushed.drop_first()));
    } else {
        assert(pushed[0] == input[0]);
        assert(pushed.drop_first() =~= input.drop_first().push(symbol));
        lemma_run_push(m.spec_step(input[0]), input.drop_first(), symbol);
        assert(run(m, pushed) == run(m.spec_step(input[0]), input.drop_first().push(symbol)));
        assert(run(m, input) == run(m.spec_step(input[0]), input.drop_first()));
    }
}

/// Determinism: the transition is a function of the status and the symbol
/// alone, so any two results of `next` on equal arguments are equal.
pub proof fn lemma_next_deterministic<T: Transition>(
    status: T::Status,
    symbol: T::Alphabet,
    first: T::Status,
    second: T::Status,
)
    requires
        first == T::spec_next(status, symbol),
        second == T::spec_next(status, symbol),
    ensures
        first == second,
{
}

/// Reset idempotence: the machine after a reset does not depend on the
/// machine before it, so any two machines that a reset just left behind are
/// equal — resetting twice in a row is equivalent to resetting once.
pub proof fn lemma_reset_idempotent<Alphabet, M: AutomatonModel<Alphabet>>(once: M, twice: M)
    requires
        once == M::spec_reset(),
        twice == M::spec_reset(),
    ensures
        once == twice,
{
}

/// Empty-input identity: running no symbols leaves the machine unchanged, so
/// `execute` on an empty sequence reports the finality of the configuration
/// the machine already held.
pub proof fn lemma_run_empty<Alphabet, M: AutomatonModel<Alphabet>>(m: M)
    ensures
        run(m, Seq::<Alphabet>::empty()) == m,
{
}

/// Cumulative-call equivalence: running `x` and then `y` reaches the same
/// machine as running the concatenation `x + y` in one call.
pub proof fn lemma_run_concat<Alphabet, M: AutomatonModel<Alphabet>>(
    m: M,
    x: Seq<Alphabet>,
    y: Seq<Alphabet>,
)
    ensures
        run(run(m, x), y) == run(m, x + y),
    decreases x.len(),
{
    if x.len() == 0 {
        assert(x + y =~= y);
    } else {
        assert((x + y)[0] == x[0]);
        assert((x + y).drop_first() =~= x.drop_first() + y);
        lemma_run_concat(m.spec_step(x[0]), x.drop_first(), y);
        assert(run(m, x + y) == run(m.spec_step(x[0]), x.drop_first() + y));
        assert(run(m, x) == run(m.spec_step(x[0]), x.drop_first()));
    }
}

/// The generic finite-state-machine engine: the one concrete [`Automaton`].
///
/// It owns exactly one current status and is bound, at the type level, to
/// one [`Status`] implementation and one [`Transition`] implementation; the
/// markers remember the alphabet and the transition logic without storing a
/// value of either.
pub struct FiniteStateMachine<S, A, T> {
    /// The one configuration the engine currently holds: always a valid
    /// status value, populated at construction and at every reset.
    pub status: S,
    /// Remembers the alphabet type the engine consumes.
    pub alphabet: PhantomData<A>,
    /// Remembers the transition logic the engine drives.
    pub transition: PhantomData<T>,
}

impl<S, A, T> FiniteStateMachine<S, A, T> where S: Status<Status = S> {
    /// A fresh engine holding the initial status.
    pub fn new() -> (machine: Self)
        ensures
            machine.status == S::spec_initial(),
    {
        Self { status: S::initial(), alphabet: PhantomData, transition: PhantomData }
    }
}

impl<S, A, T> AutomatonModel<A> for FiniteStateMachine<S, A, T> where
    S: Status<Status = S>,
    T: Transition<Status = S, Alphabet = A>,
 {
    open spec fn spec_reset() -> Self {
        FiniteStateMachine {
            status: S::spec_initial(),
            alphabet: PhantomData,
            transition: PhantomData,
        }
    }

    open spec fn spec_step(self, symbol: A) -> Self {
        FiniteStateMachine { status: T::spec_next(self.status, symbol), ..self }
    }

    open spec fn spec_accepting(self) -> bool {
        S::spec_is_final(self.status)
    }
}

impl<S, A, T> Automaton<A> for FiniteStateMachine<S, A, T> where
    S: Status<Status = S>,
    T: Transition<Status = S, Alphabet = A>,
 {
    fn reset(&mut self)
        ensures
            final(self).status == S::spec_initial(),
    {
        self.status = S::initial();
    }

    fn execute(&mut self, input: &[A]) -> (accepted: bool) {
        let mut i: usize = 0;
        while i < input.len()
            invariant
                i <= input.len(),
                *self == run(*old(self), input@.subrange(0, i as int)),
            decreases input.len() - i,
        {
            proof {
                assert(input@.subrange(0, i + 1 as int) =~= input@.subrange(0, i as int).push(
                    input@[i as int],
                ));
                lemma_run_push(*old(self), input@.subrange(0, i as int), input@[i as int]);
            }
            self.status = T::next(&self.status, &input[i]);
            i += 1;
        }
        proof {
            assert(input@.subrange(0, input@.len() as int) =~= input@);
        }
        S::is_final(&self.status)
    }
}

/// The left-to-right fold of the transition function over a symbol sequence,
/// starting from `status`.
pub open spec fn fold_next<S, A, T: Transition<Status = S, Alphabet = A>>(
    status: S,
    input: Seq<A>,
) -> S
    decreases input.len(),
{
    if input.len() == 0 {
        status
    } else {
        fold_next::<S, A, T>(T::spec_next(status, input[0]), input.drop_first())
    }
}

/// Fold correctness: the status the engine holds after running `input` is
/// exactly the transition function folded left to right over the symbols,
/// starting from the status it held before.
pub proof fn lemma_fold_correct<S, A, T>(m: FiniteStateMachine<S, A, T>, input: Seq<A>)
    where
        S: Status<Status = S>,
        T: Transition<Status = S, Alphabet = A>,
    ensures
        run(m, input).status == fold_next::<S, A, T>(m.status, input),
    decreases input.len(),
{
    if input.len() > 0 {
        lemma_fold_correct(m.spec_step(input[0]), input.drop_first());
    }
}

} // verus!
