use turing::direction::Direction;
use turing::epoch::{Epoch, Tick};
use turing::machine::{Transition, TuringMachine};

const QUIET: Tick = Tick { render: false, reset: false };

#[test]
fn fresh_epoch_counts_nothing() {
    let e = Epoch::new(100, 10);
    assert_eq!(e.steps(), 0);
    assert!(!e.changed());
    assert_eq!(e.reset_steps(), 100);
    assert_eq!(e.picture_steps(), 10);
}

#[test]
fn stagnant_machine_resets_at_first_frame() {
    // Every entry writes back the symbol it reads.
    let table = vec![
        Transition { next_state: 0, write_symbol: 0, direction: Direction::East },
        Transition { next_state: 0, write_symbol: 1, direction: Direction::South },
    ];
    let mut m = TuringMachine::with_table(5, 5, 1, 2, table).unwrap();
    let mut e = Epoch::new(1000, 4);
    for _ in 0..3 {
        let changed = m.step();
        assert_eq!(e.record(changed), QUIET);
    }
    let changed = m.step();
    let tick = e.record(changed);
    assert_eq!(tick, Tick { render: true, reset: true });
    assert_eq!(e.steps(), 0);
    assert!(!e.changed());
    m.new_epoch();
    assert_eq!(m.tape(), &vec![0u8; 25]);
    assert_eq!(m.position(), 0);
    assert_eq!(m.state(), 0);
    assert_eq!(m.table().len(), 2);
}

#[test]
fn changing_machine_keeps_running_at_frames() {
    let mut e = Epoch::new(1000, 4);
    assert_eq!(e.record(true), QUIET);
    assert_eq!(e.record(false), QUIET);
    assert_eq!(e.record(false), QUIET);
    assert_eq!(e.record(false), Tick { render: true, reset: false });
    assert_eq!(e.steps(), 4);
    assert!(e.changed());
}

#[test]
fn budget_resets_even_with_changes() {
    let mut e = Epoch::new(7, 3);
    for i in 1..7u32 {
        let tick = e.record(true);
        assert_eq!(tick, Tick { render: i % 3 == 0, reset: false });
        assert_eq!(e.steps(), i);
    }
    assert_eq!(e.record(true), Tick { render: false, reset: true });
    assert_eq!(e.steps(), 0);
    assert!(!e.changed());
}

#[test]
fn budget_reset_on_a_frame_renders_too() {
    let mut e = Epoch::new(2, 2);
    assert_eq!(e.record(true), QUIET);
    assert_eq!(e.record(true), Tick { render: true, reset: true });
}

#[test]
fn change_flag_clears_on_reset() {
    let mut e = Epoch::new(3, 2);
    e.record(true);
    e.record(false);
    assert_eq!(e.record(true), Tick { render: false, reset: true });
    assert_eq!(e.record(false), QUIET);
    assert_eq!(e.record(false), Tick { render: true, reset: true });
}

#[test]
fn zero_budget_resets_every_step() {
    let mut e = Epoch::new(0, 5);
    for _ in 0..10 {
        assert_eq!(e.record(true), Tick { render: false, reset: true });
        assert_eq!(e.steps(), 0);
    }
}
