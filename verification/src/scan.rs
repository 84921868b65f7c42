//! The matrix scan as a state machine: it names the next thing to do to the
//! lines, takes what came of it, and ends with a snapshot of the matrix.
//!
//! The wiring is active-low: columns idle high through pull-ups, a row is
//! selected by driving it low, and a closed switch on the selected row pulls
//! its column low.

use vstd::prelude::*;
use crate::matrix::{all_open, spec_all_open, spec_with_cell, with_cell, MatrixCell, StateMatrix, ROWS};

verus! {

/// Electrical level of a line.
#[derive(Clone, Copy, Debug, PartialEq, Eq, Structural)]
pub enum Level {
    Low,
    High,
}

/// Busy-wait, in instruction cycles, that lets the lines settle after a row
/// changed level.
pub const SETTLE_CYCLES: u32 = 10;

/// Steps spent on one row: select, settle, one read per column, release,
/// settle.
pub const STEPS_PER_ROW: usize = 7;

/// Steps of a whole scan.
pub const SCAN_STEPS: usize = 14;

/// Step within a row at which the row is released again.
pub const RELEASE_STEP: usize = 5;

/// The next thing to do to the lines.
#[derive(Clone, Copy, Debug, PartialEq, Eq, Structural)]
pub enum ScanAction {
    /// Drive row line `row` to `level`.
    DriveRow { row: usize, level: Level },
    /// Wait for `cycles` instruction cycles.
    Settle { cycles: u32 },
    /// Read column line `col`.
    ReadColumn { col: usize },
    /// Nothing: the scan is complete and the snapshot can be taken.
    Done,
    /// Nothing: a line failed or an answer did not fit; stop the device.
    Halt,
}

/// What came of the last action.
#[derive(Clone, Copy, Debug, PartialEq, Eq, Structural)]
pub enum LineEvent {
    /// The row line was driven.
    Driven,
    /// The wait is over.
    Settled,
    /// The column line was read at this level.
    Read(Level),
    /// The line could not be driven or read.
    Fault,
}

impl Level {
    /// Whether a column at this level shows a closed switch.
    pub open spec fn spec_shows_closed(self) -> bool {
        self is Low
    }

    /// Whether a column at this level shows a closed switch.
    #[verifier::when_used_as_spec(spec_shows_closed)]
    pub fn shows_closed(self) -> (closed: bool)
        ensures
            closed == self.spec_shows_closed(),
    {
        match self {
            Level::Low => true,
            Level::High => false,
        }
    }
}

/// What a scan does to one row: select it, let the lines settle, read every
/// column, release it, and let the lines settle again.
pub open spec fn row_script(row: usize) -> Seq<ScanAction> {
    seq![
        ScanAction::DriveRow { row, level: Level::Low },
        ScanAction::Settle { cycles: SETTLE_CYCLES },
        ScanAction::ReadColumn { col: 0 },
        ScanAction::ReadColumn { col: 1 },
        ScanAction::ReadColumn { col: 2 },
        ScanAction::DriveRow { row, level: Level::High },
        ScanAction::Settle { cycles: SETTLE_CYCLES },
    ]
}

/// What a scan does, from first to last: one row after the other.
pub open spec fn scan_script() -> Seq<ScanAction> {
    row_script(0) + row_script(1)
}

/// The action at place `position` of a scan; past the end of the script the
/// scan is done.
pub open spec fn action_at(position: nat) -> ScanAction {
    if position < scan_script().len() {
        scan_script()[position as int]
    } else {
        ScanAction::Done
    }
}

/// The row that the action at place `position` of a scan works on.
pub open spec fn row_at(position: nat) -> usize {
    (position / STEPS_PER_ROW as nat) as usize
}

/// The script is as long as `SCAN_STEPS` says, and the place of an action in
/// it tells what the action is: places are counted row by row, and within a
/// row the place tells the step.
pub proof fn lemma_action_at(position: nat)
    ensures
        scan_script().len() == SCAN_STEPS,
        action_at(position) == {
            let step = position % STEPS_PER_ROW as nat;
            if position >= SCAN_STEPS {
                ScanAction::Done
            } else if step == 0 {
                ScanAction::DriveRow { row: row_at(position), level: Level::Low }
            } else if step == RELEASE_STEP {
                ScanAction::DriveRow { row: row_at(position), level: Level::High }
            } else if step == 1 || step > RELEASE_STEP {
                ScanAction::Settle { cycles: SETTLE_CYCLES }
            } else {
                ScanAction::ReadColumn { col: (step - 2) as usize }
            }
        },
{
    let first = row_script(0);
    let second = row_script(1);
    assert(first.len() == 7 && second.len() == 7);
    if position < 7 {
        assert(scan_script()[position as int] == first[position as int]);
    } else if position < 14 {
        assert(scan_script()[position as int] == second[position - 7]);
    }
}

/// Whether `event` is what `action` can end in.
pub open spec fn answers(action: ScanAction, event: LineEvent) -> bool {
    match action {
        ScanAction::DriveRow { .. } => event is Driven,
        ScanAction::Settle { .. } => event is Settled,
        ScanAction::ReadColumn { .. } => event is Read,
        ScanAction::Done => false,
        ScanAction::Halt => false,
    }
}

/// A scan in progress: how many actions are behind it, what it has read so
/// far, and whether it had to give up.
#[derive(Clone, Copy, Debug, PartialEq, Eq)]
pub struct Scanner {
    pub position: usize,
    pub matrix: StateMatrix,
    pub faulted: bool,
}

impl Scanner {
    /// The state a scan starts in.
    pub open spec fn spec_new() -> Scanner {
        Scanner { position: 0, matrix: spec_all_open(), faulted: false }
    }

    /// The action the scan waits on.
    pub open spec fn spec_pending(&self) -> ScanAction {
        if self.faulted {
            ScanAction::Halt
        } else {
            action_at(self.position as nat)
        }
    }

    /// The state after `event`. A scan that is done or has given up stays as
    /// it is. An event that does not answer the pending action makes the scan
    /// give up. Otherwise the scan moves on by one action, and a column
    /// reading is entered in the snapshot.
    pub open spec fn spec_step(self, event: LineEvent) -> Scanner {
        let action = self.spec_pending();
        if action is Done || action is Halt {
            self
        } else if !answers(action, event) {
            Scanner { faulted: true, ..self }
        } else {
            Scanner {
                position: (self.position + 1) as usize,
                matrix: match (action, event) {
                    (ScanAction::ReadColumn { col }, LineEvent::Read(level)) => spec_with_cell(
                        self.matrix,
                        MatrixCell { row: row_at(self.position as nat), col },
                        level.spec_shows_closed(),
                    ),
                    _ => self.matrix,
                },
                faulted: false,
            }
        }
    }

    /// The snapshot, once the scan is done.
    pub open spec fn spec_snapshot(&self) -> Option<StateMatrix> {
        if self.spec_pending() is Done {
            Some(self.matrix)
        } else {
            None
        }
    }

    /// Starts a scan.
    pub fn new() -> (scanner: Scanner)
        ensures
            scanner == Scanner::spec_new(),
    {
        Scanner { position: 0, matrix: all_open(), faulted: false }
    }

    /// The action the scan waits on.
    #[verifier::when_used_as_spec(spec_pending)]
    pub fn pending(&self) -> (action: ScanAction)
        ensures
            action == self.spec_pending(),
    {
        proof {
            lemma_action_at(self.position as nat);
        }
        if self.faulted {
            return ScanAction::Halt;
        }
        if self.position >= SCAN_STEPS {
            return ScanAction::Done;
        }
        let row: usize = self.position / STEPS_PER_ROW;
        let step: usize = self.position % STEPS_PER_ROW;
        if step == 0 {
            ScanAction::DriveRow { row, level: Level::Low }
        } else if step == RELEASE_STEP {
            ScanAction::DriveRow { row, level: Level::High }
        } else if step == 1 || step > RELEASE_STEP {
            ScanAction::Settle { cycles: SETTLE_CYCLES }
        } else {
            ScanAction::ReadColumn { col: step - 2 }
        }
    }

    /// Takes what came of the pending action and returns the action to do
    /// next.
    pub fn step(&mut self, event: LineEvent) -> (next: ScanAction)
        ensures
            *final(self) == old(self).spec_step(event),
            next == final(self).spec_pending(),
    {
        let action = self.pending();
        match (action, event) {
            (ScanAction::Done, _) | (ScanAction::Halt, _) => {},
            (ScanAction::DriveRow { .. }, LineEvent::Driven)
            | (ScanAction::Settle { .. }, LineEvent::Settled) => {
                self.position += 1;
            },
            (ScanAction::ReadColumn { col }, LineEvent::Read(level)) => {
                let cell = MatrixCell { row: self.position / STEPS_PER_ROW, col };
                self.matrix = with_cell(self.matrix, cell, level.shows_closed());
                self.position += 1;
            },
            _ => {
                self.faulted = true;
            },
        }
        self.pending()
    }

    /// The snapshot, once the scan is done; `None` while it is under way or
    /// after it gave up.
    #[verifier::when_used_as_spec(spec_snapshot)]
    pub fn snapshot(&self) -> (snapshot: Option<StateMatrix>)
        ensures
            snapshot == self.spec_snapshot(),
    {
        match self.pending() {
            ScanAction::Done => Some(self.matrix),
            _ => None,
        }
    }
}

/// The scan's state after it was handed `events` one after the other.
pub open spec fn run(scanner: Scanner, events: Seq<LineEvent>) -> Scanner
    decreases events.len(),
{
    if events.len() == 0 {
        scanner
    } else {
        run(scanner, events.drop_last()).spec_step(events.last())
    }
}

/// What lines that work answer to the action at `position` while the
/// switches stand as in `closed`: a column reads low exactly if the switch
/// between it and the selected row is closed.
pub open spec fn faithful_event(position: nat, closed: StateMatrix) -> LineEvent {
    match action_at(position) {
        ScanAction::DriveRow { .. } => LineEvent::Driven,
        ScanAction::Settle { .. } => LineEvent::Settled,
        ScanAction::ReadColumn { col } => {
            let cell = MatrixCell { row: row_at(position), col };
            if cell.active_in(closed) {
                LineEvent::Read(Level::Low)
            } else {
                LineEvent::Read(Level::High)
            }
        },
        ScanAction::Done => LineEvent::Fault,
        ScanAction::Halt => LineEvent::Fault,
    }
}

/// The answers of working lines to a whole scan.
pub open spec fn faithful_events(closed: StateMatrix) -> Seq<LineEvent> {
    Seq::new(SCAN_STEPS as nat, |position: int| faithful_event(position as nat, closed))
}

/// Whether a scan that is `done` actions along has read the cell already.
spec fn read_before(done: nat, row: nat, col: nat) -> bool {
    done > row * STEPS_PER_ROW + 2 + col
}

/// The snapshot of a faithful scan that is `done` actions along.
spec fn read_so_far(closed: StateMatrix, done: nat) -> StateMatrix {
    [
        [
            read_before(done, 0, 0) && closed[0][0],
            read_before(done, 0, 1) && closed[0][1],
            read_before(done, 0, 2) && closed[0][2],
        ],
        [
            read_before(done, 1, 0) && closed[1][0],
            read_before(done, 1, 1) && closed[1][1],
            read_before(done, 1, 2) && closed[1][2],
        ],
    ]
}

proof fn lemma_faithful_prefix(closed: StateMatrix, done: nat)
    requires
        done <= SCAN_STEPS,
    ensures
        run(Scanner::spec_new(), faithful_events(closed).take(done as int)) == (Scanner {
            position: done as usize,
            matrix: read_so_far(closed, done),
            faulted: false,
        }),
    decreases done,
{
    let events = faithful_events(closed);
    if done == 0 {
        assert(read_so_far(closed, 0) =~~= spec_all_open());
    } else {
        let before = (done - 1) as nat;
        lemma_faithful_prefix(closed, before);
        assert(events.take(done as int).drop_last() == events.take(before as int));
        assert(events.take(done as int).last() == faithful_event(before, closed));
        let state = Scanner {
            position: before as usize,
            matrix: read_so_far(closed, before),
            faulted: false,
        };
        let stepped = state.spec_step(faithful_event(before, closed)).matrix;
        let read = read_so_far(closed, done);
        assert(stepped[0] =~= read[0]);
        assert(stepped[1] =~= read[1]);
        assert(stepped =~= read);
    }
}

/// With lines that work, a scan from the start issues the actions of
/// `action_at` in order, never gives up, and ends with a snapshot that shows
/// exactly the switches that are closed.
pub proof fn lemma_scan_reads_switches(closed: StateMatrix)
    ensures
        forall|done: nat|
            done <= SCAN_STEPS ==> (#[trigger] run(
                Scanner::spec_new(),
                faithful_events(closed).take(done as int),
            )).spec_pending() == action_at(done),
        run(Scanner::spec_new(), faithful_events(closed)).spec_snapshot() == Some(closed),
{
    assert forall|done: nat| done <= SCAN_STEPS implies (#[trigger] run(
        Scanner::spec_new(),
        faithful_events(closed).take(done as int),
    )).spec_pending() == action_at(done) by {
        lemma_faithful_prefix(closed, done);
    }
    lemma_faithful_prefix(closed, SCAN_STEPS as nat);
    assert(faithful_events(closed).take(SCAN_STEPS as int) == faithful_events(closed));
    let read = read_so_far(closed, SCAN_STEPS as nat);
    assert(read[0] =~= closed[0]);
    assert(read[1] =~= closed[1]);
    assert(read =~= closed);
}

/// The level of row line `row` once the first `done` actions of a scan were
/// carried out, given that every row was released when the scan began.
pub open spec fn row_level(done: nat, row: usize) -> Level
    decreases done,
{
    if done == 0 {
        Level::High
    } else {
        match action_at((done - 1) as nat) {
            ScanAction::DriveRow { row: driven, level } if driven == row => level,
            _ => row_level((done - 1) as nat, row),
        }
    }
}

proof fn lemma_row_level(done: nat, row: usize)
    ensures
        row_level(done, row) is Low <==> row < ROWS && row * STEPS_PER_ROW < done <= row
            * STEPS_PER_ROW + RELEASE_STEP,
    decreases done,
{
    if done > 0 {
        lemma_row_level((done - 1) as nat, row);
    }
}

/// At no point of a scan are two rows selected at once; a column is read only
/// while its row, and so that row alone, is selected; and the scan leaves every
/// row released.
pub proof fn lemma_one_row_at_a_time(done: nat, row: usize, other: usize)
    ensures
        row_level(done, row) is Low && row_level(done, other) is Low ==> row == other,
        action_at(done) is ReadColumn ==> (row_level(done, row) is Low <==> row == row_at(done)),
        done >= SCAN_STEPS ==> row_level(done, row) is High,
{
    lemma_row_level(done, row);
    lemma_row_level(done, other);
}

} // verus!
