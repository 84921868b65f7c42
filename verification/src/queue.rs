//! The bounded first-in-first-out queue of keyboard reports that holds a macro
//! while it plays.

use vstd::prelude::*;
use heapless::Deque;
use crate::report::KeyboardReport;

verus! {

/// Number of reports the macro queue can hold.
pub const MACRO_QUEUE_CAPACITY: usize = 32;

/// `heapless::Deque`, a fixed-capacity double-ended queue; nothing inside it
/// is visible to the verifier.
#[verifier::external_type_specification]
#[verifier::external_body]
#[verifier::reject_recursive_types(T)]
pub struct ExDeque<T, const N: usize>(Deque<T, N>);

/// The reports a deque holds, front first.
pub uninterp spec fn deque_reports(deque: Deque<KeyboardReport, MACRO_QUEUE_CAPACITY>) -> Seq<KeyboardReport>;

/// `heapless::Deque::new`: a deque that holds nothing.
#[verifier::external_body]
fn deque_new() -> (deque: Deque<KeyboardReport, MACRO_QUEUE_CAPACITY>)
    ensures
        deque_reports(deque) == Seq::<KeyboardReport>::empty(),
{
    Deque::new()
}

/// `heapless::Deque::push_back`: a deque with room takes `report` at its
/// back and answers `Ok`; a full one stays as it is and hands `report` back.
/// It does not panic.
#[verifier::external_body]
fn deque_push_back(
    deque: &mut Deque<KeyboardReport, MACRO_QUEUE_CAPACITY>,
    report: KeyboardReport,
) -> (res: Result<(), KeyboardReport>)
    ensures
        res is Ok <==> deque_reports(*old(deque)).len() < MACRO_QUEUE_CAPACITY,
        res is Ok ==> deque_reports(*final(deque)) == deque_reports(*old(deque)).push(report),
        res matches Err(back) ==> back == report && deque_reports(*final(deque)) == deque_reports(
            *old(deque),
        ),
    no_unwind
{
    deque.push_back(report)
}

/// `heapless::Deque::pop_front`: takes the front report out and returns it;
/// `None`, and no change, if the deque holds nothing. It does not panic.
#[verifier::external_body]
fn deque_pop_front(deque: &mut Deque<KeyboardReport, MACRO_QUEUE_CAPACITY>) -> (res: Option<KeyboardReport>)
    ensures
        res is Some <==> deque_reports(*old(deque)).len() > 0,
        res matches Some(front) ==> front == deque_reports(*old(deque)).first()
            && deque_reports(*final(deque)) == deque_reports(*old(deque)).drop_first(),
        res is None ==> deque_reports(*final(deque)) == deque_reports(*old(deque)),
    no_unwind
{
    deque.pop_front()
}

/// `heapless::Deque::len`: how many reports the deque holds.
#[verifier::external_body]
fn deque_len(deque: &Deque<KeyboardReport, MACRO_QUEUE_CAPACITY>) -> (len: usize)
    ensures
        len == deque_reports(*deque).len(),
{
    deque.len()
}

/// How many more reports fit into a queue that holds `queued`.
pub open spec fn room(queued: nat) -> nat {
    if queued <= MACRO_QUEUE_CAPACITY {
        (MACRO_QUEUE_CAPACITY - queued) as nat
    } else {
        0
    }
}

/// How many reports of a burst of `offered` a queue that holds `queued` takes.
pub open spec fn accepted(queued: nat, offered: nat) -> nat {
    if offered <= room(queued) {
        offered
    } else {
        room(queued)
    }
}

/// What a queue holding `queued` holds once `burst` was offered to it: the
/// burst's reports follow in order as far as there is room, the rest is lost.
pub open spec fn enqueued(queued: Seq<KeyboardReport>, burst: Seq<KeyboardReport>) -> Seq<
    KeyboardReport,
> {
    queued + burst.take(accepted(queued.len(), burst.len()) as int)
}

/// The report a queue holding `queued` hands out next, if there is one.
pub open spec fn next_report(queued: Seq<KeyboardReport>) -> Option<KeyboardReport> {
    if queued.len() > 0 {
        Some(queued.first())
    } else {
        None
    }
}

/// What a queue holding `queued` holds once its next report was taken out.
pub open spec fn after_dequeue(queued: Seq<KeyboardReport>) -> Seq<KeyboardReport> {
    if queued.len() > 0 {
        queued.drop_first()
    } else {
        queued
    }
}

/// Bounded FIFO of keyboard reports. Its view is the sequence of queued
/// reports, the next one to send first.
pub struct MacroQueue {
    reports: Deque<KeyboardReport, MACRO_QUEUE_CAPACITY>,
}

impl View for MacroQueue {
    type V = Seq<KeyboardReport>;

    closed spec fn view(&self) -> Seq<KeyboardReport> {
        deque_reports(self.reports)
    }
}

impl MacroQueue {
    #[verifier::type_invariant]
    spec fn within_capacity(self) -> bool {
        self@.len() <= MACRO_QUEUE_CAPACITY
    }

    /// An empty queue.
    pub fn new() -> (queue: MacroQueue)
        ensures
            queue@ == Seq::<KeyboardReport>::empty(),
    {
        MacroQueue { reports: deque_new() }
    }

    /// The fixed number of reports the queue can hold.
    pub fn capacity(&self) -> (cap: usize)
        ensures
            cap == MACRO_QUEUE_CAPACITY,
    {
        MACRO_QUEUE_CAPACITY
    }

    /// Number of reports waiting.
    pub fn len(&self) -> (len: usize)
        ensures
            len == self@.len(),
            len <= MACRO_QUEUE_CAPACITY,
    {
        proof {
            use_type_invariant(self);
        }
        deque_len(&self.reports)
    }

    /// Whether no report is waiting.
    pub fn is_empty(&self) -> (empty: bool)
        ensures
            empty == (self@.len() == 0),
    {
        deque_len(&self.reports) == 0
    }

    /// Offers a burst of reports. They are appended in order while there is
    /// room; those that do not fit are dropped, and what was queued before
    /// stays.
    pub fn enqueue_all(&mut self, reports: &[KeyboardReport])
        ensures
            final(self)@ == enqueued(old(self)@, reports@),
    {
        proof {
            use_type_invariant(&*self);
        }
        let mut i: usize = 0;
        while i < reports.len()
            invariant
                i <= reports.len(),
                old(self)@.len() <= MACRO_QUEUE_CAPACITY,
                self@ == old(self)@ + reports@.take(accepted(old(self)@.len(), i as nat) as int),
            decreases reports.len() - i,
        {
            let _ = deque_push_back(&mut self.reports, reports[i]);
            proof {
                let before = accepted(old(self)@.len(), i as nat) as int;
                if before == i {
                    assert(reports@.take(i + 1) == reports@.take(i as int).push(reports@[i as int]));
                }
            }
            i += 1;
        }
    }

    /// Takes the oldest report out of the queue, if there is one.
    pub fn dequeue_one(&mut self) -> (next: Option<KeyboardReport>)
        ensures
            next == next_report(old(self)@),
            final(self)@ == after_dequeue(old(self)@),
    {
        proof {
            use_type_invariant(&*self);
        }
        deque_pop_front(&mut self.reports)
    }
}

/// What a queue holding `queued` holds once a report was asked of it `count`
/// times.
pub open spec fn after_dequeues(queued: Seq<KeyboardReport>, count: nat) -> Seq<KeyboardReport>
    decreases count,
{
    if count == 0 {
        queued
    } else {
        after_dequeue(after_dequeues(queued, (count - 1) as nat))
    }
}

proof fn lemma_after_dequeues(queued: Seq<KeyboardReport>, count: nat)
    ensures
        count <= queued.len() ==> after_dequeues(queued, count) == queued.skip(count as int),
        count >= queued.len() ==> after_dequeues(queued, count).len() == 0,
    decreases count,
{
    if count > 0 {
        lemma_after_dequeues(queued, (count - 1) as nat);
        if count <= queued.len() {
            assert(queued.skip(count - 1).drop_first() == queued.skip(count as int));
        }
    }
}

/// A burst that fits into the empty queue comes back whole and in order: the
/// dequeue number `taken` (counted from 0) returns report number `taken` of
/// the burst, and after as many dequeues as the burst is long the queue is
/// empty and returns nothing.
pub proof fn lemma_burst_comes_back_in_order(burst: Seq<KeyboardReport>, taken: nat)
    requires
        burst.len() <= MACRO_QUEUE_CAPACITY,
    ensures
        enqueued(Seq::empty(), burst) == burst,
        taken < burst.len() ==> next_report(
            after_dequeues(enqueued(Seq::empty(), burst), taken),
        ) == Some(burst[taken as int]),
        taken >= burst.len() ==> after_dequeues(enqueued(Seq::empty(), burst), taken).len() == 0
            && next_report(after_dequeues(enqueued(Seq::empty(), burst), taken)) is None,
{
    assert(burst.take(burst.len() as int) == burst);
    assert(enqueued(Seq::empty(), burst) == burst);
    lemma_after_dequeues(burst, taken);
}

/// A burst longer than the room that is left fills the queue to capacity:
/// what was queued stays in front, behind it come the first reports of the
/// burst, in order and as many as there was room for, and the rest of the
/// burst is dropped.
pub proof fn lemma_overflow_drops_excess(queued: Seq<KeyboardReport>, burst: Seq<KeyboardReport>)
    requires
        queued.len() <= MACRO_QUEUE_CAPACITY,
        burst.len() > room(queued.len()),
    ensures
        enqueued(queued, burst) == queued + burst.take(room(queued.len()) as int),
        enqueued(queued, burst).len() == MACRO_QUEUE_CAPACITY,
        enqueued(queued, burst).len() == queued.len() + room(queued.len()),
        forall|i: int| 0 <= i < queued.len() ==> #[trigger] enqueued(queued, burst)[i] == queued[i],
        forall|i: int|
            0 <= i < room(queued.len()) ==> #[trigger] enqueued(queued, burst)[queued.len() + i]
                == burst[i],
{
}

} // verus!
