//! The keyboard variant: one trigger switch that plays a fixed macro.
//!
//! The keyboard sends nothing of its own accord. When the trigger switch goes
//! from open to closed, the whole macro is queued, and the following timer
//! ticks send it one report each; the matrix is not scanned again until the
//! queue has run empty.

use vstd::prelude::*;
use crate::edge::{spec_trigger_edge, trigger_edge};
use crate::matrix::{MatrixCell, StateMatrix};
use crate::queue::{after_dequeue, enqueued, next_report, MacroQueue};
use crate::report::{
    KeyboardReport,
    KEY_7,
    KEY_8,
    KEY_9,
    KEY_A,
    KEY_B,
    KEY_K,
    KEY_NONE,
    KEY_O,
    MOD_LEFT_SHIFT,
};
use crate::schedule::{outcome, Action, Event, Surroundings};

verus! {

/// Number of reports in the macro.
pub const MACRO_LEN: usize = 10;

/// The macro: "KOBA" typed with left shift held, then "789". Shift goes down
/// in a report of its own, and after each group a report releases everything.
pub open spec fn spec_macro_sequence_koba789() -> Seq<KeyboardReport> {
    seq![
        KeyboardReport::spec_single(MOD_LEFT_SHIFT, KEY_NONE),
        KeyboardReport::spec_single(MOD_LEFT_SHIFT, KEY_K),
        KeyboardReport::spec_single(MOD_LEFT_SHIFT, KEY_O),
        KeyboardReport::spec_single(MOD_LEFT_SHIFT, KEY_B),
        KeyboardReport::spec_single(MOD_LEFT_SHIFT, KEY_A),
        KeyboardReport::spec_single(0, KEY_NONE),
        KeyboardReport::spec_single(0, KEY_7),
        KeyboardReport::spec_single(0, KEY_8),
        KeyboardReport::spec_single(0, KEY_9),
        KeyboardReport::spec_single(0, KEY_NONE),
    ]
}

/// The reports of the macro, in the order in which they are sent.
pub fn macro_sequence_koba789() -> (sequence: [KeyboardReport; MACRO_LEN])
    ensures
        sequence@ == spec_macro_sequence_koba789(),
{
    let sequence = [
        KeyboardReport::single(MOD_LEFT_SHIFT, KEY_NONE),
        KeyboardReport::single(MOD_LEFT_SHIFT, KEY_K),
        KeyboardReport::single(MOD_LEFT_SHIFT, KEY_O),
        KeyboardReport::single(MOD_LEFT_SHIFT, KEY_B),
        KeyboardReport::single(MOD_LEFT_SHIFT, KEY_A),
        KeyboardReport::single(0, KEY_NONE),
        KeyboardReport::single(0, KEY_7),
        KeyboardReport::single(0, KEY_8),
        KeyboardReport::single(0, KEY_9),
        KeyboardReport::single(0, KEY_NONE),
    ];
    assert(sequence@ =~= spec_macro_sequence_koba789());
    sequence
}

/// The cell of the switch that starts the macro.
pub open spec fn spec_trigger_cell() -> MatrixCell {
    MatrixCell { row: 0, col: 0 }
}

/// The cell of the switch that starts the macro.
#[verifier::when_used_as_spec(spec_trigger_cell)]
pub fn trigger_cell() -> (cell: MatrixCell)
    ensures
        cell == spec_trigger_cell(),
{
    MatrixCell { row: 0, col: 0 }
}

/// What the keyboard remembers between events.
pub struct KeyboardState {
    /// The reports waiting to be sent, the next one first.
    pub queue: Seq<KeyboardReport>,
    /// Whether the trigger switch was closed at the last scan.
    pub trigger_was_active: bool,
}

/// The keyboard's answer to an event: what it remembers afterwards, and what
/// the main loop is to do next.
///
/// A timer that has run out sends the next queued report if there is one and
/// asks for a scan only if there is none. A scan never sends anything: it
/// queues the macro if the trigger switch has just closed. Whether the
/// transport took a report changes nothing: a refused report is lost.
pub open spec fn spec_react(state: KeyboardState, event: Event) -> (
    KeyboardState,
    Action<KeyboardReport>,
) {
    match event {
        Event::Started => (state, Action::PollUsb),
        Event::UsbPolled => (state, Action::CheckTimer),
        Event::TimerChecked { expired } => if !expired {
            (state, Action::DiscardOutput)
        } else {
            match next_report(state.queue) {
                Some(report) => (
                    KeyboardState { queue: after_dequeue(state.queue), ..state },
                    Action::SendReport(report),
                ),
                None => (state, Action::ScanMatrix),
            }
        },
        Event::MatrixScanned(matrix) => {
            let active = spec_trigger_cell().active_in(matrix);
            let (rising, history) = spec_trigger_edge(state.trigger_was_active, active);
            let queue = if rising {
                enqueued(state.queue, spec_macro_sequence_koba789())
            } else {
                state.queue
            };
            (KeyboardState { queue, trigger_was_active: history }, Action::DiscardOutput)
        },
        Event::ReportOffered { .. } => (state, Action::DiscardOutput),
        Event::OutputDiscarded => (state, Action::PollUsb),
    }
}

/// The keyboard: its macro queue and the history bit of its trigger switch.
pub struct MacroKeyboard {
    pub queue: MacroQueue,
    pub trigger_was_active: bool,
}

impl View for MacroKeyboard {
    type V = KeyboardState;

    open spec fn view(&self) -> KeyboardState {
        KeyboardState { queue: self.queue@, trigger_was_active: self.trigger_was_active }
    }
}

impl MacroKeyboard {
    /// A keyboard with nothing queued whose trigger switch counts as open.
    pub fn new() -> (keyboard: MacroKeyboard)
        ensures
            keyboard@ == (KeyboardState {
                queue: Seq::<KeyboardReport>::empty(),
                trigger_was_active: false,
            }),
    {
        MacroKeyboard { queue: MacroQueue::new(), trigger_was_active: false }
    }

    /// Takes an event from the main loop and returns the action to carry out
    /// next.
    pub fn react(&mut self, event: Event) -> (action: Action<KeyboardReport>)
        ensures
            (final(self)@, action) == spec_react(old(self)@, event),
    {
        match event {
            Event::Started | Event::OutputDiscarded => Action::PollUsb,
            Event::UsbPolled => Action::CheckTimer,
            Event::TimerChecked { expired } => {
                if !expired {
                    Action::DiscardOutput
                } else {
                    match self.queue.dequeue_one() {
                        Some(report) => Action::SendReport(report),
                        None => Action::ScanMatrix,
                    }
                }
            },
            Event::MatrixScanned(matrix) => {
                let active = trigger_cell().is_active(&matrix);
                let (rising, history) = trigger_edge(self.trigger_was_active, active);
                if rising {
                    let sequence = macro_sequence_koba789();
                    self.queue.enqueue_all(sequence.as_slice());
                }
                self.trigger_was_active = history;
                Action::DiscardOutput
            },
            Event::ReportOffered { .. } => Action::DiscardOutput,
        }
    }
}

/// What the keyboard remembers after `ticks` timer ticks in a row.
pub open spec fn after_ticks(state: KeyboardState, ticks: nat) -> KeyboardState
    decreases ticks,
{
    if ticks == 0 {
        state
    } else {
        spec_react(after_ticks(state, (ticks - 1) as nat), Event::TimerChecked { expired: true }).0
    }
}

proof fn lemma_after_ticks(state: KeyboardState, ticks: nat)
    ensures
        after_ticks(state, ticks).trigger_was_active == state.trigger_was_active,
        ticks <= state.queue.len() ==> after_ticks(state, ticks).queue == state.queue.skip(
            ticks as int,
        ),
        ticks >= state.queue.len() ==> after_ticks(state, ticks).queue.len() == 0,
    decreases ticks,
{
    if ticks > 0 {
        lemma_after_ticks(state, (ticks - 1) as nat);
        if ticks <= state.queue.len() {
            assert(state.queue.skip(ticks - 1).drop_first() == state.queue.skip(ticks as int));
        }
    }
}

/// While reports are queued, every timer tick sends the next of them, in the
/// order in which they were queued, and none asks for a scan; the first tick
/// after the last report asks for a scan again.
pub proof fn lemma_queue_plays_before_scanning(state: KeyboardState, tick: nat)
    ensures
        tick < state.queue.len() ==> spec_react(
            after_ticks(state, tick),
            Event::TimerChecked { expired: true },
        ).1 == Action::SendReport(state.queue[tick as int]),
        tick >= state.queue.len() ==> spec_react(
            after_ticks(state, tick),
            Event::TimerChecked { expired: true },
        ).1 == Action::<KeyboardReport>::ScanMatrix,
{
    lemma_after_ticks(state, tick);
}

/// A press of the trigger switch, seen by a keyboard with an empty queue,
/// queues the whole macro; the ticks that follow send its reports one by one
/// in order, and the tick after the last of them scans again. While the
/// switch stays closed, further scans queue nothing.
pub proof fn lemma_press_plays_macro(state: KeyboardState, matrix: StateMatrix, tick: nat)
    requires
        state.queue.len() == 0,
        !state.trigger_was_active,
        spec_trigger_cell().active_in(matrix),
    ensures
        spec_react(state, Event::MatrixScanned(matrix)).0 == (KeyboardState {
            queue: spec_macro_sequence_koba789(),
            trigger_was_active: true,
        }),
        tick < MACRO_LEN ==> spec_react(
            after_ticks(spec_react(state, Event::MatrixScanned(matrix)).0, tick),
            Event::TimerChecked { expired: true },
        ).1 == Action::SendReport(spec_macro_sequence_koba789()[tick as int]),
        spec_react(
            after_ticks(spec_react(state, Event::MatrixScanned(matrix)).0, MACRO_LEN as nat),
            Event::TimerChecked { expired: true },
        ).1 == Action::<KeyboardReport>::ScanMatrix,
        spec_react(
            after_ticks(spec_react(state, Event::MatrixScanned(matrix)).0, MACRO_LEN as nat),
            Event::MatrixScanned(matrix),
        ).0.queue.len() == 0,
{
    let sequence = spec_macro_sequence_koba789();
    assert(sequence.take(MACRO_LEN as int) == sequence);
    let pressed = spec_react(state, Event::MatrixScanned(matrix)).0;
    assert(pressed.queue == sequence);
    lemma_queue_plays_before_scanning(pressed, tick);
    lemma_queue_plays_before_scanning(pressed, MACRO_LEN as nat);
    lemma_after_ticks(pressed, MACRO_LEN as nat);
}

/// One turn of the main loop, whatever it meets: USB is serviced first, then
/// the timer is looked at. If the timer has not run out, nothing more happens.
/// If it has, the turn either sends the next queued report or scans the
/// matrix, never both, and a scan sends nothing. The turn ends by discarding
/// the host's data. A report that the transport refuses is not queued again.
pub proof fn lemma_turn(state: KeyboardState, around: Surroundings)
    ensures
        ({
            let (s1, a1) = spec_react(state, Event::OutputDiscarded);
            let (s2, a2) = spec_react(s1, outcome(a1, around));
            let (s3, a3) = spec_react(s2, outcome(a2, around));
            let (s4, a4) = spec_react(s3, outcome(a3, around));
            &&& a1 == Action::<KeyboardReport>::PollUsb
            &&& a2 == Action::<KeyboardReport>::CheckTimer
            &&& s2 == state
            &&& !around.timer_expired ==> a3 == Action::<KeyboardReport>::DiscardOutput && s3
                == state
            &&& around.timer_expired && state.queue.len() > 0 ==> {
                &&& a3 == Action::SendReport(state.queue.first())
                &&& a4 == Action::<KeyboardReport>::DiscardOutput
                &&& s4 == (KeyboardState { queue: state.queue.drop_first(), ..state })
            }
            &&& around.timer_expired && state.queue.len() == 0 ==> {
                &&& a3 == Action::<KeyboardReport>::ScanMatrix
                &&& a4 == Action::<KeyboardReport>::DiscardOutput
                &&& s4 == spec_react(state, Event::MatrixScanned(around.matrix)).0
            }
        }),
{
}

} // verus!
