use fsm::power_of_two::{encode, Bit, PowerStatus, PowerTransition};
use fsm::{Automaton, FiniteStateMachine, Status, Transition};

type PowerMachine = FiniteStateMachine<PowerStatus, Bit, PowerTransition>;

#[test]
fn power_of_2() {
    for i in 1..=16 {
        let expect = (i & (i - 1)) == 0;
        let input = encode(i);
        let mut fsa: PowerMachine = FiniteStateMachine::new();
        let output = fsa.execute(&input);
        assert_eq!(output, expect);
    }
}

#[test]
fn transition_is_deterministic() {
    let statuses = [PowerStatus::Start, PowerStatus::PowerOfTwo, PowerStatus::Dead];
    let symbols = [Bit::Zero, Bit::One];
    for status in &statuses {
        for symbol in &symbols {
            let first = PowerTransition::next(status, symbol);
            let second = PowerTransition::next(status, symbol);
            assert_eq!(first, second);
        }
    }
}

#[test]
fn transition_table() {
    assert_eq!(PowerTransition::next(&PowerStatus::Start, &Bit::Zero), PowerStatus::Start);
    assert_eq!(PowerTransition::next(&PowerStatus::Start, &Bit::One), PowerStatus::PowerOfTwo);
    assert_eq!(PowerTransition::next(&PowerStatus::PowerOfTwo, &Bit::Zero), PowerStatus::Dead);
    assert_eq!(PowerTransition::next(&PowerStatus::PowerOfTwo, &Bit::One), PowerStatus::Dead);
    assert_eq!(PowerTransition::next(&PowerStatus::Dead, &Bit::Zero), PowerStatus::Dead);
    assert_eq!(PowerTransition::next(&PowerStatus::Dead, &Bit::One), PowerStatus::Dead);
}

#[test]
fn finality_per_status() {
    assert!(!PowerStatus::is_final(&PowerStatus::Start));
    assert!(PowerStatus::is_final(&PowerStatus::PowerOfTwo));
    assert!(!PowerStatus::is_final(&PowerStatus::Dead));
    assert_eq!(PowerStatus::initial(), PowerStatus::Start);
}

#[test]
fn reset_is_idempotent() {
    let mut fsa: PowerMachine = FiniteStateMachine::new();
    fsa.execute(&[Bit::One, Bit::Zero]);
    assert_eq!(fsa.status, PowerStatus::Dead);
    fsa.reset();
    let after_one_reset = fsa.status;
    assert_eq!(after_one_reset, PowerStatus::Start);
    fsa.reset();
    assert_eq!(fsa.status, after_one_reset);
}

#[test]
fn cumulative_calls_match_concatenation() {
    let x = [Bit::Zero, Bit::Zero, Bit::One];
    let y = [Bit::Zero, Bit::One];
    let mut split: PowerMachine = FiniteStateMachine::new();
    split.reset();
    split.execute(&x);
    let split_accepts = split.execute(&y);
    let mut joined: PowerMachine = FiniteStateMachine::new();
    joined.reset();
    let mut both = Vec::new();
    both.extend_from_slice(&x);
    both.extend_from_slice(&y);
    let joined_accepts = joined.execute(&both);
    assert_eq!(split.status, joined.status);
    assert_eq!(split_accepts, joined_accepts);
}

#[test]
fn empty_input_changes_nothing() {
    let mut fsa: PowerMachine = FiniteStateMachine::new();
    assert!(!fsa.execute(&[]));
    assert_eq!(fsa.status, PowerStatus::Start);
    fsa.execute(&[Bit::One]);
    assert!(fsa.execute(&[]));
    assert_eq!(fsa.status, PowerStatus::PowerOfTwo);
}

#[test]
fn encode_gives_digits_least_significant_first() {
    assert_eq!(encode(0), vec![]);
    assert_eq!(encode(1), vec![Bit::One]);
    assert_eq!(encode(2), vec![Bit::Zero, Bit::One]);
    assert_eq!(encode(6), vec![Bit::Zero, Bit::One, Bit::One]);
    assert_eq!(encode(8), vec![Bit::Zero, Bit::Zero, Bit::Zero, Bit::One]);
    assert_eq!(encode(11), vec![Bit::One, Bit::One, Bit::Zero, Bit::One]);
}
