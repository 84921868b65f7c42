use rustykeys::macrokey::{macro_sequence_koba789, trigger_cell, MacroKeyboard, MACRO_LEN};
use rustykeys::matrix::{MatrixCell, StateMatrix};
use rustykeys::queue::MacroQueue;
use rustykeys::report::KeyboardReport;
use rustykeys::schedule::{Action, Event, DISCARD_BUFFER_LEN, SCAN_PERIOD_MS};

fn key(modifier: u8, keycode: u8) -> KeyboardReport {
    KeyboardReport { modifier, reserved: 0, leds: 0, keycodes: [keycode, 0, 0, 0, 0, 0] }
}

fn trigger(active: bool) -> StateMatrix {
    [[active, false, false], [false, false, false]]
}

fn tick() -> Event {
    Event::TimerChecked { expired: true }
}

/// A transport that refuses the first `refusals` reports and keeps the rest.
struct Host {
    refusals: usize,
    offered: usize,
    received: Vec<KeyboardReport>,
}

impl Host {
    fn new(refusals: usize) -> Host {
        Host { refusals, offered: 0, received: Vec::new() }
    }

    fn offer(&mut self, report: KeyboardReport) -> bool {
        self.offered += 1;
        if self.offered <= self.refusals {
            false
        } else {
            self.received.push(report);
            true
        }
    }
}

/// Runs whole turns of the main loop, each with an expired timer, and notes
/// every action; scans see `matrix`.
fn run_ticks(
    keyboard: &mut MacroKeyboard,
    host: &mut Host,
    matrix: StateMatrix,
    ticks: usize,
) -> Vec<Action<KeyboardReport>> {
    let mut log = Vec::new();
    for _ in 0..ticks {
        let mut event = Event::OutputDiscarded;
        loop {
            let action = keyboard.react(event);
            event = match &action {
                Action::PollUsb => Event::UsbPolled,
                Action::CheckTimer => tick(),
                Action::ScanMatrix => Event::MatrixScanned(matrix),
                Action::SendReport(report) => Event::ReportOffered { accepted: host.offer(*report) },
                Action::DiscardOutput => Event::OutputDiscarded,
            };
            let last = action == Action::DiscardOutput;
            log.push(action);
            if last {
                break;
            }
        }
    }
    log
}

#[test]
fn macro_types_koba_shifted_then_789() {
    assert_eq!(MACRO_LEN, 10);
    assert_eq!(
        macro_sequence_koba789(),
        [
            key(0x02, 0x00),
            key(0x02, 0x0e),
            key(0x02, 0x12),
            key(0x02, 0x05),
            key(0x02, 0x04),
            key(0x00, 0x00),
            key(0x00, 0x24),
            key(0x00, 0x25),
            key(0x00, 0x26),
            key(0x00, 0x00),
        ]
    );
}

#[test]
fn trigger_is_the_first_cell() {
    assert_eq!(trigger_cell(), MatrixCell { row: 0, col: 0 });
}

#[test]
fn loop_constants() {
    assert_eq!(SCAN_PERIOD_MS, 10);
    assert_eq!(DISCARD_BUFFER_LEN, 64);
}

#[test]
fn new_keyboard_has_nothing_to_send() {
    let mut keyboard = MacroKeyboard::new();
    assert!(keyboard.queue.is_empty());
    assert!(!keyboard.trigger_was_active);
    assert_eq!(keyboard.react(Event::Started), Action::PollUsb);
    assert_eq!(keyboard.react(Event::UsbPolled), Action::CheckTimer);
    assert_eq!(keyboard.react(tick()), Action::ScanMatrix);
}

#[test]
fn press_hold_release_queues_one_burst() {
    let mut keyboard = MacroKeyboard::new();
    let mut queued = Vec::new();
    for active in [false, true, true, false] {
        assert_eq!(keyboard.react(Event::MatrixScanned(trigger(active))), Action::DiscardOutput);
        queued.push(keyboard.queue.len());
        assert_eq!(keyboard.trigger_was_active, active);
    }
    assert_eq!(queued, vec![0, 10, 10, 10]);
    let mut sent = Vec::new();
    while let Action::SendReport(report) = keyboard.react(tick()) {
        sent.push(report);
    }
    assert_eq!(sent, macro_sequence_koba789().to_vec());
}

#[test]
fn press_plays_the_macro_one_report_per_tick() {
    let mut keyboard = MacroKeyboard::new();
    let mut host = Host::new(0);
    let log = run_ticks(&mut keyboard, &mut host, trigger(true), 12);
    let mut expected = vec![
        Action::PollUsb,
        Action::CheckTimer,
        Action::ScanMatrix,
        Action::DiscardOutput,
    ];
    for report in macro_sequence_koba789() {
        expected.extend([
            Action::PollUsb,
            Action::CheckTimer,
            Action::SendReport(report),
            Action::DiscardOutput,
        ]);
    }
    expected.extend([
        Action::PollUsb,
        Action::CheckTimer,
        Action::ScanMatrix,
        Action::DiscardOutput,
    ]);
    assert_eq!(log, expected);
    assert_eq!(host.received, macro_sequence_koba789().to_vec());
    assert!(keyboard.queue.is_empty());
    assert!(keyboard.trigger_was_active);
}

#[test]
fn held_trigger_does_not_replay_the_macro() {
    let mut keyboard = MacroKeyboard::new();
    let mut host = Host::new(0);
    run_ticks(&mut keyboard, &mut host, trigger(true), 40);
    assert_eq!(host.received.len(), 10);
}

#[test]
fn second_press_replays_the_macro() {
    let mut keyboard = MacroKeyboard::new();
    let mut host = Host::new(0);
    run_ticks(&mut keyboard, &mut host, trigger(true), 11);
    run_ticks(&mut keyboard, &mut host, trigger(false), 1);
    run_ticks(&mut keyboard, &mut host, trigger(true), 11);
    let mut expected = macro_sequence_koba789().to_vec();
    expected.extend(macro_sequence_koba789());
    assert_eq!(host.received, expected);
}

#[test]
fn release_during_playback_is_not_seen() {
    let mut keyboard = MacroKeyboard::new();
    let mut host = Host::new(0);
    run_ticks(&mut keyboard, &mut host, trigger(true), 1);
    let log = run_ticks(&mut keyboard, &mut host, trigger(false), 10);
    assert!(!log.contains(&Action::ScanMatrix));
    assert!(keyboard.trigger_was_active);
    run_ticks(&mut keyboard, &mut host, trigger(true), 5);
    assert_eq!(host.received.len(), 10);
}

#[test]
fn no_tick_no_work() {
    let mut keyboard = MacroKeyboard::new();
    keyboard.queue.enqueue_all(&macro_sequence_koba789());
    assert_eq!(keyboard.react(Event::OutputDiscarded), Action::PollUsb);
    assert_eq!(keyboard.react(Event::UsbPolled), Action::CheckTimer);
    assert_eq!(keyboard.react(Event::TimerChecked { expired: false }), Action::DiscardOutput);
    assert_eq!(keyboard.queue.len(), 10);
}

#[test]
fn refused_reports_are_lost() {
    let burst: Vec<KeyboardReport> = (1..=5).map(|i| key(0, i)).collect();
    let mut keyboard = MacroKeyboard::new();
    keyboard.queue.enqueue_all(&burst);
    let mut host = Host::new(3);
    let log = run_ticks(&mut keyboard, &mut host, trigger(false), 8);
    assert_eq!(host.offered, 5);
    assert_eq!(host.received, vec![key(0, 4), key(0, 5)]);
    let sends = log.iter().filter(|a| matches!(a, Action::SendReport(_))).count();
    assert_eq!(sends, 5);
    assert!(keyboard.queue.is_empty());
}

#[test]
fn outcome_of_sending_changes_nothing() {
    for accepted in [false, true] {
        let mut keyboard = MacroKeyboard { queue: MacroQueue::new(), trigger_was_active: true };
        keyboard.queue.enqueue_all(&[key(0, 1), key(0, 2)]);
        assert_eq!(keyboard.react(Event::ReportOffered { accepted }), Action::DiscardOutput);
        assert_eq!(keyboard.queue.len(), 2);
        assert!(keyboard.trigger_was_active);
        assert_eq!(keyboard.react(tick()), Action::SendReport(key(0, 1)));
    }
}

#[test]
fn macro_behind_a_nearly_full_queue_is_cut_short() {
    let filler: Vec<KeyboardReport> = (0..28).map(|i| key(1, i)).collect();
    let mut keyboard = MacroKeyboard::new();
    keyboard.queue.enqueue_all(&filler);
    assert_eq!(keyboard.react(Event::MatrixScanned(trigger(true))), Action::DiscardOutput);
    assert_eq!(keyboard.queue.len(), 32);
    let mut sent = Vec::new();
    while let Action::SendReport(report) = keyboard.react(tick()) {
        sent.push(report);
    }
    let mut expected = filler.clone();
    expected.extend_from_slice(&macro_sequence_koba789()[..4]);
    assert_eq!(sent, expected);
}

#[test]
fn other_switches_do_not_start_the_macro() {
    let mut keyboard = MacroKeyboard::new();
    let others = [[false, true, true], [true, true, true]];
    assert_eq!(keyboard.react(Event::MatrixScanned(others)), Action::DiscardOutput);
    assert!(keyboard.queue.is_empty());
    assert!(!keyboard.trigger_was_active);
}
