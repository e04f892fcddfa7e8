//! The machine: its transition table, tape, head and the single step.

use crate::direction::{lemma_moved_in_bounds, moved_position, Direction, DIRECTION_COUNT};
use crate::palette::{bgr_byte, covers, image_of, Color};
use crate::random::random_below;
use vstd::prelude::*;

verus! {

/// What the machine does on reading a symbol in a state: the state to enter,
/// the symbol to write over the one read, and where to move the head.
#[derive(Clone, Copy, Debug, PartialEq, Eq, Structural)]
pub struct Transition {
    pub next_state: u8,
    pub write_symbol: u8,
    pub direction: Direction,
}

/// The entry for reading `symbol` in `state` sits at `symbol * states + state`.
pub open spec fn table_index(symbol: nat, state: nat, states: nat) -> nat {
    symbol * states + state
}

/// A table has one entry per (state, symbol) pair, and each entry names a
/// state below `states` and a symbol below `symbols`.
pub open spec fn valid_table(table: Seq<Transition>, states: nat, symbols: nat) -> bool {
    &&& table.len() == states * symbols
    &&& forall|i: int|
        0 <= i < table.len() ==> (#[trigger] table[i]).next_state < states
            && table[i].write_symbol < symbols
}

/// A tape of `len` cells, all holding symbol 0.
pub open spec fn blank_tape(len: nat) -> Seq<u8> {
    Seq::new(len, |i: int| 0u8)
}

/// The abstract contents of a machine.
pub struct MachineView {
    pub width: nat,
    pub height: nat,
    pub states: nat,
    pub symbols: nat,
    pub position: nat,
    pub state: nat,
    pub table: Seq<Transition>,
    pub tape: Seq<u8>,
    pub image: Seq<u8>,
}

impl MachineView {
    /// The invariant every machine keeps.
    pub open spec fn wf(self) -> bool {
        &&& self.width >= 1
        &&& self.height >= 1
        &&& self.states >= 1
        &&& self.symbols >= 1
        &&& self.width * self.height * 3 <= usize::MAX
        &&& valid_table(self.table, self.states, self.symbols)
        &&& self.tape.len() == self.width * self.height
        &&& forall|i: int| 0 <= i < self.tape.len() ==> (#[trigger] self.tape[i]) < self.symbols
        &&& self.position < self.width * self.height
        &&& self.state < self.states
        &&& self.image.len() == self.width * self.height * 3
    }

    /// The symbol under the head.
    pub open spec fn read_symbol(self) -> u8 {
        self.tape[self.position as int]
    }

    /// The table entry the next step follows.
    pub open spec fn transition(self) -> Transition {
        self.table[table_index(self.read_symbol() as nat, self.state, self.states) as int]
    }

    /// Whether the next step writes a symbol other than the one it reads.
    pub open spec fn changes_tape(self) -> bool {
        self.transition().write_symbol != self.read_symbol()
    }

    /// The machine after one step: the entry for the symbol read and the
    /// current state is written under the head, its state is entered, and the
    /// head moves one cell in its direction, wrapping around the grid.
    pub open spec fn next(self) -> MachineView {
        let t = self.transition();
        MachineView {
            position: moved_position(self.position, t.direction, self.width, self.height),
            state: t.next_state as nat,
            tape: self.tape.update(self.position as int, t.write_symbol),
            ..self
        }
    }

    /// The machine after `n` steps.
    pub open spec fn run(self, n: nat) -> MachineView
        decreases n,
    {
        if n == 0 {
            self
        } else {
            self.run((n - 1) as nat).next()
        }
    }

    /// The machine with a new table, a blank tape, and the head at cell 0 in state 0.
    pub open spec fn restarted(self, table: Seq<Transition>) -> MachineView {
        MachineView {
            table,
            tape: blank_tape(self.width * self.height),
            position: 0,
            state: 0,
            ..self
        }
    }
}

/// A fresh machine over a blank `width` by `height` tape, at cell 0 in state 0,
/// with a black frame buffer.
pub open spec fn fresh_machine(
    width: nat,
    height: nat,
    states: nat,
    symbols: nat,
    table: Seq<Transition>,
) -> MachineView {
    MachineView {
        width,
        height,
        states,
        symbols,
        position: 0,
        state: 0,
        table,
        tape: blank_tape(width * height),
        image: Seq::new(width * height * 3, |i: int| 0u8),
    }
}

/// A finite two-dimensional Turing machine. The tape is a `width` by
/// `height` grid of symbols stored row by row, which wraps around on both
/// axes; the head sits on one cell and the machine is in one of `states`
/// states. The machine also owns the frame buffer it renders into.
pub struct TuringMachine {
    width: usize,
    height: usize,
    states: u8,
    symbols: u8,
    position: usize,
    state: u8,
    table: Vec<Transition>,
    tape: Vec<u8>,
    image: Vec<u8>,
}

impl View for TuringMachine {
    type V = MachineView;

    closed spec fn view(&self) -> MachineView {
        MachineView {
            width: self.width as nat,
            height: self.height as nat,
            states: self.states as nat,
            symbols: self.symbols as nat,
            position: self.position as nat,
            state: self.state as nat,
            table: self.table@,
            tape: self.tape@,
            image: self.image@,
        }
    }
}

/// A vector of `n` zero bytes.
fn zeros(n: usize) -> (r: Vec<u8>)
    ensures
        r@ == blank_tape(n as nat),
{
    let mut r: Vec<u8> = Vec::with_capacity(n);
    let mut i: usize = 0;
    while i < n
        invariant
            i <= n,
            r@ == blank_tape(i as nat),
        decreases n - i,
    {
        r.push(0u8);
        i += 1;
        assert(r@ =~= blank_tape(i as nat));
    }
    r
}

impl TuringMachine {
    /// A machine over a blank `width` by `height` tape with a random table,
    /// at cell 0 in state 0.
    pub fn new(width: usize, height: usize, states: u8, symbols: u8) -> (r: TuringMachine)
        requires
            width >= 1,
            height >= 1,
            states >= 1,
            symbols >= 1,
            width * height * 3 <= usize::MAX,
        ensures
            r@.wf(),
            r@ == fresh_machine(
                width as nat,
                height as nat,
                states as nat,
                symbols as nat,
                r@.table,
            ),
    {
        let table = TuringMachine::random_table(states, symbols);
        TuringMachine::build(width, height, states, symbols, table)
    }

    fn build(width: usize, height: usize, states: u8, symbols: u8, table: Vec<Transition>) -> (r:
        TuringMachine)
        requires
            width >= 1,
            height >= 1,
            states >= 1,
            symbols >= 1,
            width * height * 3 <= usize::MAX,
            valid_table(table@, states as nat, symbols as nat),
        ensures
            r@.wf(),
            r@ == fresh_machine(width as nat, height as nat, states as nat, symbols as nat, table@),
    {
        assert(1 <= width * height <= width * height * 3) by (nonlinear_arith)
            requires
                width >= 1,
                height >= 1,
        ;
        let cells = width * height;
        let tape = zeros(cells);
        let image = zeros(cells * 3);
        let r = TuringMachine {
            width,
            height,
            states,
            symbols,
            position: 0,
            state: 0,
            table,
            tape,
            image,
        };
        assert(r@.image =~= Seq::new((width * height * 3) as nat, |i: int| 0u8));
        r
    }

    /// A table with one random entry per (state, symbol) pair: each entry
    /// names a state below `states`, a symbol below `symbols` and one of the
    /// four directions.
    pub fn random_table(states: u8, symbols: u8) -> (r: Vec<Transition>)
        requires
            states >= 1,
            symbols >= 1,
        ensures
            valid_table(r@, states as nat, symbols as nat),
    {
        assert(states as nat * symbols as nat <= 255 * 255) by (nonlinear_arith)
            requires
                states <= 255,
                symbols <= 255,
        ;
        let n = states as usize * symbols as usize;
        let mut table: Vec<Transition> = Vec::with_capacity(n);
        let mut i: usize = 0;
        while i < n
            invariant
                i <= n,
                n == states * symbols,
                table@.len() == i,
                forall|j: int|
                    0 <= j < i ==> (#[trigger] table@[j]).next_state < states
                        && table@[j].write_symbol < symbols,
            decreases n - i,
        {
            let next_state = random_below(states);
            let write_symbol = random_below(symbols);
            let direction = Direction::from_index(random_below(DIRECTION_COUNT));
            table.push(Transition { next_state, write_symbol, direction });
            i += 1;
        }
        table
    }
    /// A machine over a blank `width` by `height` tape with the given table,
    /// at cell 0 in state 0. `None` when a dimension, `states` or `symbols`
    /// is zero, when a frame of `width * height * 3` bytes does not fit in
    /// memory, or when `table` is not a valid table for `states` and `symbols`.
    pub fn with_table(
        width: usize,
        height: usize,
        states: u8,
        symbols: u8,
        table: Vec<Transition>,
    ) -> (r: Option<TuringMachine>)
        ensures
            r is Some <==> {
                &&& width >= 1
                &&& height >= 1
                &&& states >= 1
                &&& symbols >= 1
                &&& width * height * 3 <= usize::MAX
                &&& valid_table(table@, states as nat, symbols as nat)
            },
            r matches Some(m) ==> m@.wf() && m@ == fresh_machine(
                width as nat,
                height as nat,
                states as nat,
                symbols as nat,
                table@,
            ),
    {
        if width == 0 || height == 0 || states == 0 || symbols == 0 {
            return None;
        }
        let cells = match width.checked_mul(height) {
            Some(c) => c,
            None => {
                assert(width * height * 3 > usize::MAX) by (nonlinear_arith)
                    requires
                        width * height > usize::MAX,
                ;
                return None;
            },
        };
        if cells.checked_mul(3).is_none() {
            return None;
        }
        if !TuringMachine::is_valid_table(&table, states, symbols) {
            return None;
        }
        Some(TuringMachine::build(width, height, states, symbols, table))
    }

    /// Whether `table` is a valid table for `states` and `symbols`.
    pub fn is_valid_table(table: &Vec<Transition>, states: u8, symbols: u8) -> (r: bool)
        ensures
            r == valid_table(table@, states as nat, symbols as nat),
    {
        assert(states as nat * symbols as nat <= 255 * 255) by (nonlinear_arith)
            requires
                states <= 255,
                symbols <= 255,
        ;
        if table.len() != states as usize * symbols as usize {
            return false;
        }
        let mut i: usize = 0;
        while i < table.len()
            invariant
                i <= table@.len(),
                forall|j: int|
                    0 <= j < i ==> (#[trigger] table@[j]).next_state < states
                        && table@[j].write_symbol < symbols,
            decreases table@.len() - i,
        {
            if table[i].next_state >= states || table[i].write_symbol >= symbols {
                assert(!((table@[i as int]).next_state < states && table@[i as int].write_symbol
                    < symbols));
                return false;
            }
            i += 1;
        }
        true
    }

    /// Advances the machine by one step and returns whether the step changed
    /// the tape, that is whether it wrote a symbol other than the one it read.
    pub fn step(&mut self) -> (changed: bool)
        requires
            old(self)@.wf(),
        ensures
            final(self)@ == old(self)@.next(),
            final(self)@.wf(),
            changed == old(self)@.changes_tape(),
            changed <==> old(self)@.transition().write_symbol != old(self)@.read_symbol(),
    {
        proof {
            lemma_step_keeps_wf(self@);
        }
        let curr_symbol = self.tape[self.position];
        let ghost sym = curr_symbol as nat;
        assert(sym * self.states + self.state < self.symbols * self.states <= 255 * 255)
            by (nonlinear_arith)
            requires
                sym < self.symbols,
                self.state < self.states,
                self.symbols <= 255,
                self.states <= 255,
        ;
        let index = curr_symbol as usize * self.states as usize + self.state as usize;
        let t = self.table[index];
        self.tape[self.position] = t.write_symbol;
        let changed = t.write_symbol != curr_symbol;
        self.state = t.next_state;
        let mut x: usize = self.position % self.width;
        let mut y: usize = self.position / self.width;
        proof {
            lemma_moved_in_bounds(self.position as nat, t.direction, self.width as nat, self.height as nat);
            assert(x < self.width && y < self.height) by (nonlinear_arith)
                requires
                    x == self.position % self.width,
                    y == self.position / self.width,
                    self.position < self.width * self.height,
                    self.width >= 1,
            ;
        }
        match t.direction {
            Direction::North => {
                y = if y == 0 { self.height - 1 } else { y - 1 };
            },
            Direction::East => {
                x = if x + 1 == self.width { 0 } else { x + 1 };
            },
            Direction::South => {
                y = if y + 1 == self.height { 0 } else { y + 1 };
            },
            Direction::West => {
                x = if x == 0 { self.width - 1 } else { x - 1 };
            },
        }
        assert(y * self.width + x < self.width * self.height) by (nonlinear_arith)
            requires
                x < self.width,
                y < self.height,
        ;
        self.position = y * self.width + x;
        changed
    }

    /// Renders the tape into the machine's frame buffer: three bytes per
    /// cell, in tape order, each cell's color from `palette[symbol]` written
    /// in BGR order. The buffer is overwritten in place on every call.
    pub fn write_image(&mut self, palette: &Vec<Color>)
        requires
            old(self)@.wf(),
            covers(palette@, old(self)@.symbols),
        ensures
            final(self)@ == (MachineView { image: image_of(old(self)@.tape, palette@), ..old(self)@ }),
            final(self)@.wf(),
            final(self)@.image.len() == old(self)@.width * old(self)@.height * 3,
    {
        let n = self.tape.len();
        let ghost tape = self.tape@;
        let ghost want = image_of(tape, palette@);
        let mut i: usize = 0;
        while i < n
            invariant
                n == tape.len(),
                self.tape@ == tape,
                want == image_of(tape, palette@),
                self.width == old(self).width,
                self.height == old(self).height,
                self.states == old(self).states,
                self.symbols == old(self).symbols,
                self.position == old(self).position,
                self.state == old(self).state,
                self.table@ == old(self).table@,
                tape == old(self).tape@,
                self.image@.len() == n * 3,
                old(self)@.wf(),
                covers(palette@, old(self)@.symbols),
                i <= n,
                forall|k: int| 0 <= k < i * 3 ==> self.image@[k] == #[trigger] want[k],
            decreases n - i,
        {
            let c = palette[self.tape[i] as usize];
            let base = i * 3;
            self.image[base] = c.b;
            self.image[base + 1] = c.g;
            self.image[base + 2] = c.r;
            assert forall|k: int| 0 <= k < (i + 1) * 3 implies self.image@[k] == #[trigger] want[k] by {
                if k >= i * 3 {
                    assert(k / 3 == i);
                    assert(want[k] == bgr_byte(palette@[tape[i as int] as int], k % 3));
                }
            }
            i += 1;
        }
        assert(self.image@ =~= want);
    }

    /// Starts a new epoch: a fresh random table, a blank tape, and the head
    /// back at cell 0 in state 0. The frame buffer is kept.
    pub fn new_epoch(&mut self)
        requires
            old(self)@.wf(),
        ensures
            final(self)@ == old(self)@.restarted(final(self)@.table),
            valid_table(final(self)@.table, old(self)@.states, old(self)@.symbols),
            final(self)@.wf(),
    {
        self.table = TuringMachine::random_table(self.states, self.symbols);
        assert(self.width * self.height <= self.width * self.height * 3) by (nonlinear_arith);
        self.tape = zeros(self.width * self.height);
        self.position = 0;
        self.state = 0;
    }

    /// Width of the grid.
    pub fn width(&self) -> (r: usize)
        ensures
            r == self@.width,
    {
        self.width
    }

    /// Height of the grid.
    pub fn height(&self) -> (r: usize)
        ensures
            r == self@.height,
    {
        self.height
    }

    /// Number of states.
    pub fn states(&self) -> (r: u8)
        ensures
            r == self@.states,
    {
        self.states
    }

    /// Number of symbols.
    pub fn symbols(&self) -> (r: u8)
        ensures
            r == self@.symbols,
    {
        self.symbols
    }

    /// The cell under the head.
    pub fn position(&self) -> (r: usize)
        ensures
            r == self@.position,
    {
        self.position
    }

    /// The current state.
    pub fn state(&self) -> (r: u8)
        ensures
            r == self@.state,
    {
        self.state
    }

    /// The transition table.
    pub fn table(&self) -> (r: &Vec<Transition>)
        ensures
            r@ == self@.table,
    {
        &self.table
    }

    /// The tape, row by row.
    pub fn tape(&self) -> (r: &Vec<u8>)
        ensures
            r@ == self@.tape,
    {
        &self.tape
    }

    /// The frame buffer, as last written by `write_image`.
    pub fn image(&self) -> (r: &Vec<u8>)
        ensures
            r@ == self@.image,
    {
        &self.image
    }
}

/// A step keeps the machine's invariant.
pub proof fn lemma_step_keeps_wf(m: MachineView)
    requires
        m.wf(),
    ensures
        m.next().wf(),
        m.next().position < m.width * m.height,
{
    let sym = m.read_symbol() as nat;
    assert(sym < m.symbols);
    assert(sym * m.states + m.state < m.symbols * m.states) by (nonlinear_arith)
        requires
            sym < m.symbols,
            m.state < m.states,
    ;
    let t = m.transition();
    lemma_moved_in_bounds(m.position, t.direction, m.width, m.height);
    let n = m.next();
    assert forall|i: int| 0 <= i < n.tape.len() implies (#[trigger] n.tape[i]) < n.symbols by {
        if i != m.position {
            assert(n.tape[i] == m.tape[i]);
        }
    }
}

/// Steps are deterministic: two machines with the same contents take the
/// same step, reach the same machine and agree on whether the tape changed,
/// and so do any number of steps from them.
pub proof fn lemma_step_deterministic(a: MachineView, b: MachineView, n: nat)
    requires
        a.wf(),
        a == b,
    ensures
        a.next() == b.next(),
        a.changes_tape() == b.changes_tape(),
        a.run(n) == b.run(n),
{
}

/// The head never leaves the grid: after any number of steps the machine
/// keeps its invariant, and the position stays below `width * height`.
pub proof fn lemma_run_in_bounds(m: MachineView, n: nat)
    requires
        m.wf(),
    ensures
        m.run(n).wf(),
        m.run(n).position < m.width * m.height,
        m.run(n).width == m.width,
        m.run(n).height == m.height,
    decreases n,
{
    if n > 0 {
        lemma_run_in_bounds(m, (n - 1) as nat);
        lemma_step_keeps_wf(m.run((n - 1) as nat));
    }
}

} // verus!
