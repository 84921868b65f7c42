//! The mouse variant: which switch does what, the report a matrix snapshot
//! maps to, and what the main loop does next.
//!
//! The mouse remembers nothing: on every timer tick the matrix is scanned and
//! the report for the snapshot is sent at once.

use vstd::prelude::*;
use crate::matrix::{MatrixCell, StateMatrix};
use crate::report::{MouseReport, BUTTON_LEFT, BUTTON_RIGHT};
use crate::schedule::{outcome, Action, Event, Surroundings};

verus! {

/// Distance one closed direction switch moves the pointer per report.
pub const STEP: i8 = 5;

/// The six switches of the mouse, named by what they do.
#[derive(Clone, Copy, Debug, PartialEq, Eq, Structural)]
pub enum MouseSwitch {
    MoveLeft,
    MoveRight,
    MoveUp,
    MoveDown,
    ClickLeft,
    ClickRight,
}

/// What one closed switch adds to a report.
pub struct Effect {
    pub x: int,
    pub y: int,
    pub buttons: int,
}

impl MouseSwitch {
    /// Where the switch sits in the matrix.
    pub open spec fn spec_cell(self) -> MatrixCell {
        match self {
            MouseSwitch::MoveLeft => MatrixCell { row: 1, col: 0 },
            MouseSwitch::MoveRight => MatrixCell { row: 1, col: 2 },
            MouseSwitch::MoveUp => MatrixCell { row: 0, col: 1 },
            MouseSwitch::MoveDown => MatrixCell { row: 1, col: 1 },
            MouseSwitch::ClickLeft => MatrixCell { row: 0, col: 0 },
            MouseSwitch::ClickRight => MatrixCell { row: 0, col: 2 },
        }
    }

    /// Where the switch sits in the matrix.
    #[verifier::when_used_as_spec(spec_cell)]
    pub fn cell(self) -> (cell: MatrixCell)
        ensures
            cell == self.spec_cell(),
    {
        match self {
            MouseSwitch::MoveLeft => MatrixCell { row: 1, col: 0 },
            MouseSwitch::MoveRight => MatrixCell { row: 1, col: 2 },
            MouseSwitch::MoveUp => MatrixCell { row: 0, col: 1 },
            MouseSwitch::MoveDown => MatrixCell { row: 1, col: 1 },
            MouseSwitch::ClickLeft => MatrixCell { row: 0, col: 0 },
            MouseSwitch::ClickRight => MatrixCell { row: 0, col: 2 },
        }
    }

    /// Whether the switch moves the pointer.
    pub open spec fn is_direction(self) -> bool {
        !(self is ClickLeft) && !(self is ClickRight)
    }

    /// The switch that moves the pointer the other way, for a direction switch.
    pub open spec fn opposite(self) -> MouseSwitch {
        match self {
            MouseSwitch::MoveLeft => MouseSwitch::MoveRight,
            MouseSwitch::MoveRight => MouseSwitch::MoveLeft,
            MouseSwitch::MoveUp => MouseSwitch::MoveDown,
            MouseSwitch::MoveDown => MouseSwitch::MoveUp,
            MouseSwitch::ClickLeft => MouseSwitch::ClickLeft,
            MouseSwitch::ClickRight => MouseSwitch::ClickRight,
        }
    }

    /// What the switch adds to a report while it is closed.
    pub open spec fn effect(self) -> Effect {
        match self {
            MouseSwitch::MoveLeft => Effect { x: -(STEP as int), y: 0, buttons: 0 },
            MouseSwitch::MoveRight => Effect { x: STEP as int, y: 0, buttons: 0 },
            MouseSwitch::MoveUp => Effect { x: 0, y: -(STEP as int), buttons: 0 },
            MouseSwitch::MoveDown => Effect { x: 0, y: STEP as int, buttons: 0 },
            MouseSwitch::ClickLeft => Effect { x: 0, y: 0, buttons: BUTTON_LEFT as int },
            MouseSwitch::ClickRight => Effect { x: 0, y: 0, buttons: BUTTON_RIGHT as int },
        }
    }

    /// The switch's effect if it is closed in `matrix`, nothing otherwise.
    pub open spec fn share(self, matrix: StateMatrix) -> Effect {
        if self.spec_cell().active_in(matrix) {
            self.effect()
        } else {
            Effect { x: 0, y: 0, buttons: 0 }
        }
    }
}

/// The sum of what every switch adds in `matrix`.
pub open spec fn total_effect(matrix: StateMatrix) -> Effect {
    let l = MouseSwitch::MoveLeft.share(matrix);
    let r = MouseSwitch::MoveRight.share(matrix);
    let u = MouseSwitch::MoveUp.share(matrix);
    let d = MouseSwitch::MoveDown.share(matrix);
    let cl = MouseSwitch::ClickLeft.share(matrix);
    let cr = MouseSwitch::ClickRight.share(matrix);
    Effect {
        x: l.x + r.x + u.x + d.x + cl.x + cr.x,
        y: l.y + r.y + u.y + d.y + cl.y + cr.y,
        buttons: l.buttons + r.buttons + u.buttons + d.buttons + cl.buttons + cr.buttons,
    }
}

/// The report a snapshot maps to: every closed switch contributes on its
/// own, and wheel and pan are wired to nothing.
pub open spec fn spec_build_report(matrix: StateMatrix) -> MouseReport {
    let sum = total_effect(matrix);
    MouseReport { buttons: sum.buttons as u8, x: sum.x as i8, y: sum.y as i8, wheel: 0, pan: 0 }
}

/// Maps a matrix snapshot to the mouse report to send for it.
pub fn build_report(matrix: &StateMatrix) -> (report: MouseReport)
    ensures
        report == spec_build_report(*matrix),
{
    let mut buttons: u8 = 0;
    let mut x: i8 = 0;
    let mut y: i8 = 0;

    if MouseSwitch::MoveLeft.cell().is_active(matrix) {
        x -= STEP;
    }
    if MouseSwitch::MoveRight.cell().is_active(matrix) {
        x += STEP;
    }
    if MouseSwitch::MoveUp.cell().is_active(matrix) {
        y -= STEP;
    }
    if MouseSwitch::MoveDown.cell().is_active(matrix) {
        y += STEP;
    }
    if MouseSwitch::ClickLeft.cell().is_active(matrix) {
        buttons += BUTTON_LEFT;
    }
    if MouseSwitch::ClickRight.cell().is_active(matrix) {
        buttons += BUTTON_RIGHT;
    }

    MouseReport { buttons, x, y, wheel: 0, pan: 0 }
}

/// The mouse's answer to an event: what the main loop is to do next.
///
/// A timer that has run out asks for a scan, and a scan sends the report of
/// its snapshot. Whether the transport took a report changes nothing: a
/// refused report is lost.
pub open spec fn spec_react(event: Event) -> Action<MouseReport> {
    match event {
        Event::Started => Action::PollUsb,
        Event::UsbPolled => Action::CheckTimer,
        Event::TimerChecked { expired } => if expired {
            Action::ScanMatrix
        } else {
            Action::DiscardOutput
        },
        Event::MatrixScanned(matrix) => Action::SendReport(spec_build_report(matrix)),
        Event::ReportOffered { .. } => Action::DiscardOutput,
        Event::OutputDiscarded => Action::PollUsb,
    }
}

/// Takes an event from the main loop and returns the action to carry out
/// next.
pub fn react(event: Event) -> (action: Action<MouseReport>)
    ensures
        action == spec_react(event),
{
    match event {
        Event::Started | Event::OutputDiscarded => Action::PollUsb,
        Event::UsbPolled => Action::CheckTimer,
        Event::TimerChecked { expired } => {
            if expired {
                Action::ScanMatrix
            } else {
                Action::DiscardOutput
            }
        },
        Event::MatrixScanned(matrix) => Action::SendReport(build_report(&matrix)),
        Event::ReportOffered { .. } => Action::DiscardOutput,
    }
}

/// A single closed direction switch, with every other switch open, gives a
/// report in which exactly one of `x` and `y` is not zero: the one of the
/// switch's axis, a step long, with the sign of the switch's direction. No
/// button is set, and wheel and pan are zero.
pub proof fn lemma_single_direction(matrix: StateMatrix, switch: MouseSwitch)
    requires
        switch.is_direction(),
        forall|s: MouseSwitch| s.spec_cell().active_in(matrix) <==> s == switch,
    ensures
        spec_build_report(matrix) == (MouseReport {
            buttons: 0,
            x: switch.effect().x as i8,
            y: switch.effect().y as i8,
            wheel: 0,
            pan: 0,
        }),
        (spec_build_report(matrix).x != 0) != (spec_build_report(matrix).y != 0),
        switch is MoveLeft ==> spec_build_report(matrix).x == -STEP,
        switch is MoveRight ==> spec_build_report(matrix).x == STEP,
        switch is MoveUp ==> spec_build_report(matrix).y == -STEP,
        switch is MoveDown ==> spec_build_report(matrix).y == STEP,
{
    assert(MouseSwitch::MoveLeft.spec_cell().active_in(matrix) <==> MouseSwitch::MoveLeft == switch);
    assert(MouseSwitch::MoveRight.spec_cell().active_in(matrix) <==> MouseSwitch::MoveRight
        == switch);
    assert(MouseSwitch::MoveUp.spec_cell().active_in(matrix) <==> MouseSwitch::MoveUp == switch);
    assert(MouseSwitch::MoveDown.spec_cell().active_in(matrix) <==> MouseSwitch::MoveDown == switch);
    assert(MouseSwitch::ClickLeft.spec_cell().active_in(matrix) <==> MouseSwitch::ClickLeft
        == switch);
    assert(MouseSwitch::ClickRight.spec_cell().active_in(matrix) <==> MouseSwitch::ClickRight
        == switch);
}

/// Two direction switches that pull opposite ways cancel: with both closed
/// the report does not move along their axis.
pub proof fn lemma_opposites_cancel(matrix: StateMatrix, switch: MouseSwitch)
    requires
        switch.is_direction(),
        switch.spec_cell().active_in(matrix),
        switch.opposite().spec_cell().active_in(matrix),
    ensures
        switch is MoveLeft || switch is MoveRight ==> spec_build_report(matrix).x == 0,
        switch is MoveUp || switch is MoveDown ==> spec_build_report(matrix).y == 0,
{
}

/// One turn of the main loop, whatever it meets: USB is serviced first, then
/// the timer is looked at. If the timer has not run out, nothing more happens.
/// If it has, the matrix is scanned and the report of the snapshot is sent,
/// once, whether or not the transport takes it. The turn ends by discarding
/// the host's data.
pub proof fn lemma_turn(around: Surroundings)
    ensures
        ({
            let a1 = spec_react(Event::OutputDiscarded);
            let a2 = spec_react(outcome(a1, around));
            let a3 = spec_react(outcome(a2, around));
            let a4 = spec_react(outcome(a3, around));
            let a5 = spec_react(outcome(a4, around));
            &&& a1 == Action::<MouseReport>::PollUsb
            &&& a2 == Action::<MouseReport>::CheckTimer
            &&& !around.timer_expired ==> a3 == Action::<MouseReport>::DiscardOutput
            &&& around.timer_expired ==> {
                &&& a3 == Action::<MouseReport>::ScanMatrix
                &&& a4 == Action::SendReport(spec_build_report(around.matrix))
                &&& a5 == Action::<MouseReport>::DiscardOutput
            }
        }),
{
}

} // verus!
