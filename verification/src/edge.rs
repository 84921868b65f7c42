//! Rising-edge detection for a trigger cell: a held switch counts once.

use vstd::prelude::*;

verus! {

/// Whether a sample that follows `previous` starts a press.
pub open spec fn is_rising_edge(previous: bool, current: bool) -> bool {
    !previous && current
}

/// The detector's answer to the sample `current`, given the history bit
/// `previous`: whether a press starts, and the history bit to keep.
pub open spec fn spec_trigger_edge(previous: bool, current: bool) -> (bool, bool) {
    (is_rising_edge(previous, current), current)
}

/// One step of the detector: tells whether `current` starts a press, and hands
/// back the history bit to keep for the next sample.
pub fn trigger_edge(previous: bool, current: bool) -> (out: (bool, bool))
    ensures
        out == spec_trigger_edge(previous, current),
{
    (!previous && current, current)
}

/// The detector run over `samples` in turn, starting with the history bit
/// `initial`: its answer to each sample, and the history bit it ends with.
pub open spec fn detect(initial: bool, samples: Seq<bool>) -> (Seq<bool>, bool)
    decreases samples.len(),
{
    if samples.len() == 0 {
        (Seq::empty(), initial)
    } else {
        let (fired, history) = detect(initial, samples.drop_last());
        let out = spec_trigger_edge(history, samples.last());
        (fired.push(out.0), out.1)
    }
}

/// On which of `samples` the detector fires, having started with `initial`.
pub open spec fn edges(initial: bool, samples: Seq<bool>) -> Seq<bool> {
    detect(initial, samples).0
}

/// What the trigger read on the tick before tick `index`; before the first
/// tick, the history bit the detector started with.
pub open spec fn level_before(initial: bool, samples: Seq<bool>, index: int) -> bool {
    if index <= 0 {
        initial
    } else {
        samples[index - 1]
    }
}

/// How many flags of `flags` are set.
pub open spec fn count_set(flags: Seq<bool>) -> nat
    decreases flags.len(),
{
    if flags.len() == 0 {
        0
    } else {
        count_set(flags.drop_last()) + if flags.last() {
            1nat
        } else {
            0nat
        }
    }
}

/// The detector fires on a tick exactly if the trigger reads active on it and
/// did not on the tick before.
pub proof fn lemma_edges(initial: bool, samples: Seq<bool>)
    ensures
        edges(initial, samples).len() == samples.len(),
        detect(initial, samples).1 == level_before(initial, samples, samples.len() as int),
        forall|tick: int|
            0 <= tick < samples.len() ==> #[trigger] edges(initial, samples)[tick]
                == is_rising_edge(level_before(initial, samples, tick), samples[tick]),
    decreases samples.len(),
{
    if samples.len() > 0 {
        let shorter = samples.drop_last();
        lemma_edges(initial, shorter);
        assert forall|tick: int| 0 <= tick < samples.len() implies #[trigger] edges(
            initial,
            samples,
        )[tick] == is_rising_edge(level_before(initial, samples, tick), samples[tick]) by {
            if tick < shorter.len() {
                assert(edges(initial, samples)[tick] == edges(initial, shorter)[tick]);
                assert(level_before(initial, shorter, tick) == level_before(
                    initial,
                    samples,
                    tick,
                ));
            }
        }
    }
}

proof fn lemma_count_press(fired: Seq<bool>, start: int, end: int)
    requires
        0 <= start < end <= fired.len(),
        fired[start],
        forall|tick: int| start < tick < end ==> !fired[tick],
    ensures
        count_set(fired.subrange(start, end)) == 1,
    decreases end - start,
{
    let window = fired.subrange(start, end);
    assert(window.drop_last() == fired.subrange(start, end - 1));
    assert(window.last() == fired[end - 1]);
    if end - 1 == start {
        assert(count_set(window.drop_last()) == 0);
    } else {
        lemma_count_press(fired, start, end - 1);
    }
}

/// A press is a run of ticks on which the trigger reads active, after a tick
/// on which it did not. However long the press lasts, the detector fires on
/// its first tick and on no other tick of it: once.
pub proof fn lemma_one_edge_per_press(initial: bool, samples: Seq<bool>, start: int, end: int)
    requires
        0 <= start < end <= samples.len(),
        !level_before(initial, samples, start),
        forall|tick: int| start <= tick < end ==> samples[tick],
    ensures
        edges(initial, samples)[start],
        forall|tick: int| start < tick < end ==> !edges(initial, samples)[tick],
        count_set(edges(initial, samples).subrange(start, end)) == 1,
{
    lemma_edges(initial, samples);
    assert forall|tick: int| start < tick < end implies !edges(initial, samples)[tick] by {
        assert(samples[tick - 1]);
    }
    lemma_count_press(edges(initial, samples), start, end);
}

/// Between two ticks on which the detector fires lies a tick on which the
/// trigger read inactive.
pub proof fn lemma_edges_need_release(initial: bool, samples: Seq<bool>, first: int, second: int)
    requires
        0 <= first < second < samples.len(),
        edges(initial, samples)[first],
        edges(initial, samples)[second],
    ensures
        exists|tick: int| first < tick < second && !samples[tick],
{
    lemma_edges(initial, samples);
    assert(samples[first]);
    assert(!samples[second - 1]);
}

} // verus!
