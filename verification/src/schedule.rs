//! The vocabulary of the main loop: the loop carries out one action at a
//! time and reports what came of it; the device logic answers each report
//! with the next action.
//!
//! One turn of the loop services the USB transport, looks at the scan timer,
//! does the timer's work if it has run out, and then throws away whatever
//! the host has sent.

use vstd::prelude::*;
use crate::matrix::StateMatrix;

verus! {

/// Period of the scan timer, in milliseconds.
pub const SCAN_PERIOD_MS: u32 = 10;

/// Size of the buffer that data from the host is read into and forgotten.
pub const DISCARD_BUFFER_LEN: usize = 64;

/// What the main loop reports.
#[derive(Clone, Copy, Debug, PartialEq, Eq)]
pub enum Event {
    /// The device has started and the lines, the timer and USB are set up.
    Started,
    /// The USB transport was serviced.
    UsbPolled,
    /// The scan timer was looked at; `expired` tells whether it had run out
    /// (and so was started anew).
    TimerChecked { expired: bool },
    /// The matrix was scanned, with this snapshot.
    MatrixScanned(StateMatrix),
    /// A report was offered to the transport; `accepted` tells whether the
    /// transport took it.
    ReportOffered { accepted: bool },
    /// Pending data from the host was read and thrown away.
    OutputDiscarded,
}

/// What the main loop is to do next, for a device that sends reports of
/// type `R`.
#[derive(Debug, PartialEq, Eq)]
pub enum Action<R> {
    /// Service the USB transport.
    PollUsb,
    /// Look at the scan timer.
    CheckTimer,
    /// Scan the matrix.
    ScanMatrix,
    /// Offer this report to the transport, once.
    SendReport(R),
    /// Read pending data from the host and throw it away.
    DiscardOutput,
}

/// What the main loop meets while it carries out actions: whether the scan
/// timer has run out, how the switches stand, and whether the transport
/// takes a report.
pub struct Surroundings {
    pub timer_expired: bool,
    pub matrix: StateMatrix,
    pub transport_accepts: bool,
}

/// The event the main loop reports after it carried out `action` in the
/// given surroundings.
pub open spec fn outcome<R>(action: Action<R>, around: Surroundings) -> Event {
    match action {
        Action::PollUsb => Event::UsbPolled,
        Action::CheckTimer => Event::TimerChecked { expired: around.timer_expired },
        Action::ScanMatrix => Event::MatrixScanned(around.matrix),
        Action::SendReport(_) => Event::ReportOffered { accepted: around.transport_accepts },
        Action::DiscardOutput => Event::OutputDiscarded,
    }
}

} // verus!
