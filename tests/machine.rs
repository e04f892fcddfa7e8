use turing::direction::Direction;
use turing::machine::{Transition, TuringMachine};
use turing::palette::{default_palette, load_palette, Color};

fn entry(next_state: u8, write_symbol: u8, direction: Direction) -> Transition {
    Transition { next_state, write_symbol, direction }
}

fn machine(width: usize, height: usize, states: u8, symbols: u8, table: Vec<Transition>) -> TuringMachine {
    TuringMachine::with_table(width, height, states, symbols, table).expect("valid machine")
}

#[test]
fn random_table_has_one_valid_entry_per_pair() {
    for &(states, symbols) in &[(1u8, 1u8), (3, 4), (7, 2), (16, 16)] {
        let table = TuringMachine::random_table(states, symbols);
        assert_eq!(table.len(), states as usize * symbols as usize);
        for t in &table {
            assert!(t.next_state < states);
            assert!(t.write_symbol < symbols);
        }
    }
}

#[test]
fn random_table_with_one_state_and_symbol_is_all_zero() {
    let table = TuringMachine::random_table(1, 1);
    assert_eq!(table.len(), 1);
    assert_eq!(table[0].next_state, 0);
    assert_eq!(table[0].write_symbol, 0);
}

#[test]
fn new_machine_is_blank() {
    let m = TuringMachine::new(5, 3, 2, 3);
    assert_eq!(m.width(), 5);
    assert_eq!(m.height(), 3);
    assert_eq!(m.states(), 2);
    assert_eq!(m.symbols(), 3);
    assert_eq!(m.position(), 0);
    assert_eq!(m.state(), 0);
    assert_eq!(m.tape(), &vec![0u8; 15]);
    assert_eq!(m.image().len(), 45);
    assert_eq!(m.table().len(), 6);
}

#[test]
fn with_table_rejects_invalid_input() {
    let ok = vec![entry(0, 1, Direction::East), entry(0, 0, Direction::East)];
    assert!(TuringMachine::with_table(4, 1, 1, 2, ok.clone()).is_some());
    assert!(TuringMachine::with_table(0, 1, 1, 2, ok.clone()).is_none());
    assert!(TuringMachine::with_table(4, 0, 1, 2, ok.clone()).is_none());
    assert!(TuringMachine::with_table(4, 1, 0, 2, ok.clone()).is_none());
    assert!(TuringMachine::with_table(4, 1, 1, 0, ok.clone()).is_none());
    assert!(TuringMachine::with_table(usize::MAX, 2, 1, 2, ok.clone()).is_none());
    assert!(TuringMachine::with_table(4, 1, 1, 2, vec![entry(0, 1, Direction::East)]).is_none());
    assert!(TuringMachine::with_table(4, 1, 1, 2, vec![entry(1, 1, Direction::East), entry(0, 0, Direction::East)]).is_none());
    assert!(TuringMachine::with_table(4, 1, 1, 2, vec![entry(0, 2, Direction::East), entry(0, 0, Direction::East)]).is_none());
}

#[test]
fn is_valid_table_checks_ranges_and_length() {
    let t = vec![entry(1, 0, Direction::North), entry(0, 0, Direction::West)];
    assert!(TuringMachine::is_valid_table(&t, 2, 1));
    assert!(TuringMachine::is_valid_table(&t, 1, 2) == false);
    assert!(TuringMachine::is_valid_table(&t, 2, 2) == false);
}

#[test]
fn four_cell_scenario() {
    let table = vec![entry(0, 1, Direction::East), entry(0, 1, Direction::East)];
    let mut m = machine(4, 1, 1, 2, table);
    assert_eq!(m.tape(), &vec![0u8, 0, 0, 0]);
    assert!(m.step());
    assert_eq!(m.tape()[0], 1);
    assert_eq!(m.position(), 1);
    assert!(m.step());
    assert!(m.step());
    assert!(m.step());
    assert_eq!(m.position(), 0);
    assert_eq!(m.tape(), &vec![1u8, 1, 1, 1]);
    assert!(!m.step());
    assert_eq!(m.position(), 1);
}

#[test]
fn step_is_deterministic() {
    let table = vec![
        entry(1, 1, Direction::East),
        entry(0, 1, Direction::South),
        entry(2, 0, Direction::West),
        entry(1, 1, Direction::North),
        entry(0, 1, Direction::North),
        entry(2, 0, Direction::East),
    ];
    let mut a = machine(5, 4, 3, 2, table.clone());
    let mut b = machine(5, 4, 3, 2, table);
    for _ in 0..500 {
        assert_eq!(a.step(), b.step());
        assert_eq!(a.position(), b.position());
        assert_eq!(a.state(), b.state());
        assert_eq!(a.tape(), b.tape());
    }
}

#[test]
fn north_from_top_row_reaches_bottom_row() {
    let mut m = machine(3, 4, 1, 1, vec![entry(0, 0, Direction::North)]);
    m.step();
    assert_eq!(m.position(), 9);
    m.step();
    assert_eq!(m.position(), 6);
}

#[test]
fn south_from_bottom_row_reaches_top_row() {
    // State 0 goes North onto the bottom row, state 1 then goes South.
    let table = vec![entry(1, 0, Direction::North), entry(1, 0, Direction::South)];
    let mut m = machine(3, 4, 2, 1, table);
    m.step();
    assert_eq!(m.position(), 9);
    m.step();
    assert_eq!(m.position(), 0);
}

#[test]
fn west_from_first_column_reaches_last_column() {
    let mut m = machine(3, 4, 1, 1, vec![entry(0, 0, Direction::West)]);
    m.step();
    assert_eq!(m.position(), 2);
    m.step();
    assert_eq!(m.position(), 1);
}

#[test]
fn east_from_last_column_reaches_first_column() {
    let table = vec![entry(1, 0, Direction::West), entry(1, 0, Direction::East)];
    let mut m = machine(3, 4, 2, 1, table);
    m.step();
    assert_eq!(m.position(), 2);
    m.step();
    assert_eq!(m.position(), 0);
}

#[test]
fn position_stays_on_grid() {
    let mut m = TuringMachine::new(7, 5, 4, 3);
    for _ in 0..20000 {
        m.step();
        assert!(m.position() < 35);
        assert!(m.state() < 4);
        assert!(m.tape().iter().all(|&s| s < 3));
    }
}

#[test]
fn writing_the_read_symbol_never_changes() {
    let table = vec![entry(0, 0, Direction::East), entry(0, 1, Direction::South)];
    let mut m = machine(3, 3, 1, 2, table);
    for _ in 0..100 {
        assert!(!m.step());
    }
    assert_eq!(m.tape(), &vec![0u8; 9]);
}

#[test]
fn flipping_the_read_symbol_always_changes() {
    let table = vec![entry(0, 1, Direction::East), entry(0, 0, Direction::South)];
    let mut m = machine(3, 3, 1, 2, table);
    for _ in 0..100 {
        assert!(m.step());
    }
}

#[test]
fn table_is_indexed_by_symbol_then_state() {
    // Two states, two symbols: entry `symbol * 2 + state`.
    let table = vec![
        entry(1, 1, Direction::East),  // symbol 0, state 0
        entry(0, 0, Direction::South), // symbol 0, state 1
        entry(0, 1, Direction::West),  // symbol 1, state 0
        entry(1, 0, Direction::North), // symbol 1, state 1
    ];
    let mut m = machine(2, 2, 2, 2, table);
    assert!(m.step());
    assert_eq!((m.position(), m.state()), (1, 1));
    assert!(!m.step());
    assert_eq!((m.position(), m.state()), (3, 0));
    assert!(m.step());
    assert_eq!((m.position(), m.state()), (2, 1));
    assert_eq!(m.tape(), &vec![1u8, 0, 0, 1]);
}

#[test]
fn blank_frame_is_palette_zero_in_bgr() {
    let palette = vec![Color { r: 10, g: 20, b: 30 }, Color { r: 1, g: 2, b: 3 }];
    let mut m = machine(4, 3, 1, 2, vec![entry(0, 1, Direction::East), entry(0, 0, Direction::East)]);
    m.write_image(&palette);
    assert_eq!(m.image().len(), 4 * 3 * 3);
    for px in m.image().chunks(3) {
        assert_eq!(px, &[30, 20, 10]);
    }
}

#[test]
fn frame_follows_the_tape() {
    let palette = default_palette();
    let table = vec![entry(0, 1, Direction::East), entry(0, 0, Direction::East)];
    let mut m = machine(3, 1, 1, 2, table);
    m.step();
    m.write_image(&palette);
    assert_eq!(m.image(), &vec![0u8, 0, 255, 0, 0, 0, 0, 0, 0]);
    m.step();
    m.step();
    m.step();
    m.write_image(&palette);
    assert_eq!(m.image(), &vec![0u8, 0, 0, 0, 0, 255, 0, 0, 255]);
}

#[test]
fn new_epoch_blanks_the_machine() {
    let mut m = TuringMachine::new(6, 2, 3, 2);
    for _ in 0..50 {
        m.step();
    }
    m.new_epoch();
    assert_eq!(m.position(), 0);
    assert_eq!(m.state(), 0);
    assert_eq!(m.tape(), &vec![0u8; 12]);
    assert_eq!(m.table().len(), 6);
    assert_eq!(m.image().len(), 36);
}

#[test]
fn default_palette_has_ten_colors() {
    let p = default_palette();
    assert_eq!(p.len(), 10);
    assert_eq!(p[0], Color { r: 0, g: 0, b: 0 });
    assert_eq!(p[1], Color { r: 255, g: 0, b: 0 });
    assert_eq!(p[8], Color { r: 170, g: 170, b: 170 });
    assert_eq!(p[9], Color { r: 85, g: 85, b: 85 });
}

#[test]
fn load_palette_needs_a_color_per_symbol() {
    assert_eq!(load_palette(10), Some(default_palette()));
    assert_eq!(load_palette(1), Some(default_palette()));
    assert_eq!(load_palette(11), None);
}

#[test]
fn direction_from_index() {
    assert_eq!(Direction::from_index(0), Direction::North);
    assert_eq!(Direction::from_index(1), Direction::East);
    assert_eq!(Direction::from_index(2), Direction::South);
    assert_eq!(Direction::from_index(3), Direction::West);
}
