//! An example automaton: a detector for powers of two.
//!
//! An integer `n >= 1`, written as its binary digits least-significant digit
//! first, is a power of two exactly when the digits are a run of zeros
//! followed by a single one. The automaton below accepts exactly those digit
//! sequences: it stays put while reading zeros, moves to its one final status
//! on the first one, and falls into a dead status on anything after that.

use crate::Status;
use crate::Transition;
use vstd::prelude::*;

verus! {

/// One binary digit of the input alphabet.
#[derive(Clone, Copy, PartialEq, Eq, Debug)]
pub enum Bit {
    Zero,
    One,
}

/// The statuses of the power-of-two detector.
#[derive(Clone, Copy, PartialEq, Eq, Debug)]
pub enum PowerStatus {
    /// Only zeros read so far (also the initial status, before any digit).
    Start,
    /// A run of zeros followed by exactly one one: the final status.
    PowerOfTwo,
    /// Any digit read after the one: never final again.
    Dead,
}

impl Status for PowerStatus {
    type Status = PowerStatus;

    open spec fn spec_initial() -> PowerStatus {
        PowerStatus::Start
    }

    open spec fn spec_is_final(status: PowerStatus) -> bool {
        status is PowerOfTwo
    }

    fn initial() -> (status: PowerStatus) {
        PowerStatus::Start
    }

    fn is_final(status: &PowerStatus) -> (accepting: bool) {
        match status {
            PowerStatus::PowerOfTwo => true,
            PowerStatus::Start => false,
            PowerStatus::Dead => false,
        }
    }
}

/// The transition logic of the power-of-two detector.
pub struct PowerTransition;

impl Transition for PowerTransition {
    type Status = PowerStatus;

    type Alphabet = Bit;

    open spec fn spec_next(status: PowerStatus, symbol: Bit) -> PowerStatus {
        match (status, symbol) {
            (PowerStatus::Start, Bit::Zero) => PowerStatus::Start,
            (PowerStatus::Start, Bit::One) => PowerStatus::PowerOfTwo,
            (PowerStatus::PowerOfTwo, Bit::Zero) => PowerStatus::Dead,
            (PowerStatus::PowerOfTwo, Bit::One) => PowerStatus::Dead,
            (PowerStatus::Dead, Bit::Zero) => PowerStatus::Dead,
            (PowerStatus::Dead, Bit::One) => PowerStatus::Dead,
        }
    }

    fn next(status: &PowerStatus, symbol: &Bit) -> (next_status: PowerStatus) {
        match (status, symbol) {
            (PowerStatus::Start, Bit::Zero) => PowerStatus::Start,
            (PowerStatus::Start, Bit::One) => PowerStatus::PowerOfTwo,
            (PowerStatus::PowerOfTwo, Bit::Zero) => PowerStatus::Dead,
            (PowerStatus::PowerOfTwo, Bit::One) => PowerStatus::Dead,
            (PowerStatus::Dead, Bit::Zero) => PowerStatus::Dead,
            (PowerStatus::Dead, Bit::One) => PowerStatus::Dead,
        }
    }
}

/// The binary digits of `n`, least-significant digit first; empty for zero.
pub open spec fn spec_encode(n: nat) -> Seq<Bit>
    decreases n,
{
    if n == 0 {
        Seq::empty()
    } else {
        seq![if n % 2 == 0 { Bit::Zero } else { Bit::One }] + spec_encode(n / 2)
    }
}

/// Encodes `n` as its binary digits, least-significant digit first.
pub fn encode(n: usize) -> (digits: Vec<Bit>)
    ensures
        digits@ == spec_encode(n as nat),
{
    let mut digits: Vec<Bit> = Vec::new();
    let mut rest: usize = n;
    while rest > 0
        invariant
            digits@ + spec_encode(rest as nat) == spec_encode(n as nat),
        decreases rest,
    {
        let digit = if rest % 2 == 0 {
            Bit::Zero
        } else {
            Bit::One
        };
        proof {
            assert(digits@.push(digit) + spec_encode((rest / 2) as nat) =~= digits@
                + spec_encode(rest as nat));
        }
        digits.push(digit);
        rest = rest / 2;
    }
    proof {
        assert(digits@ + spec_encode(0nat) =~= digits@);
    }
    digits
}

} // verus!
