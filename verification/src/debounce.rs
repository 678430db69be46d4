//! Debounce engine: a per-channel state machine that turns a noisy stream of
//! raw boolean samples into stable logical edges. A level change is trusted
//! only after DEBOUNCE_COUNT consecutive samples unanimously disagree with
//! the last confirmed level.

use vstd::prelude::*;

verus! {

/// Number of consecutive agreeing samples needed before a level change is
/// trusted.
pub const DEBOUNCE_COUNT: u8 = 16;

/// A confirmed logical transition of a debounced signal.
#[derive(Clone, Copy, Debug, PartialEq, Eq, Structural)]
pub enum Edge {
    /// The confirmed level changed from false to true.
    Rising,
    /// The confirmed level changed from true to false.
    Falling,
}

/// One debounce channel: the last confirmed stable level plus the length of
/// the current streak of samples that disagree with it.
#[derive(Clone, Copy, Debug, PartialEq, Eq, Structural)]
pub struct Debouncer {
    /// The last confirmed stable level.
    pub confirmed: bool,
    /// How many consecutive samples so far disagree with `confirmed`.
    pub streak: u8,
}

/// The channel state after one raw sample: an agreeing sample resets the
/// streak, the DEBOUNCE_COUNT-th disagreeing sample in a row flips the
/// confirmed level, and any earlier disagreeing sample just lengthens the
/// streak.
pub open spec fn spec_step(d: Debouncer, sample: bool) -> Debouncer {
    if sample == d.confirmed {
        Debouncer { confirmed: d.confirmed, streak: 0 }
    } else if d.streak + 1 >= DEBOUNCE_COUNT {
        Debouncer { confirmed: sample, streak: 0 }
    } else {
        Debouncer { confirmed: d.confirmed, streak: (d.streak + 1) as u8 }
    }
}

/// The edge one raw sample emits: one exactly when the sample completes a
/// streak of DEBOUNCE_COUNT disagreeing samples, rising if the new level is
/// true and falling if it is false.
pub open spec fn spec_edge(d: Debouncer, sample: bool) -> Option<Edge> {
    if sample != d.confirmed && d.streak + 1 >= DEBOUNCE_COUNT {
        if sample {
            Some(Edge::Rising)
        } else {
            Some(Edge::Falling)
        }
    } else {
        None
    }
}

impl Debouncer {
    /// The streak is always shorter than DEBOUNCE_COUNT: reaching it flips
    /// the confirmed level and resets the streak.
    pub open spec fn wf(self) -> bool {
        self.streak < DEBOUNCE_COUNT
    }

    /// A fresh channel confirmed at `initial` with an empty history.
    pub fn new(initial: bool) -> (d: Self)
        ensures
            d == (Debouncer { confirmed: initial, streak: 0u8 }),
            d.wf(),
    {
        Debouncer { confirmed: initial, streak: 0 }
    }

    /// Feed one raw sample; report the confirmed edge, if any.
    pub fn update(&mut self, sample: bool) -> (edge: Option<Edge>)
        requires
            old(self).wf(),
        ensures
            *final(self) == spec_step(*old(self), sample),
            final(self).wf(),
            edge == spec_edge(*old(self), sample),
    {
        if sample == self.confirmed {
            self.streak = 0;
            None
        } else if self.streak + 1 >= DEBOUNCE_COUNT {
            self.confirmed = sample;
            self.streak = 0;
            if sample {
                Some(Edge::Rising)
            } else {
                Some(Edge::Falling)
            }
        } else {
            self.streak = self.streak + 1;
            None
        }
    }
}

/// The confirmed level changes exactly when an edge is emitted: on the
/// DEBOUNCE_COUNT-th consecutive disagreeing sample, and never otherwise.
pub proof fn lemma_confirmed_changes_iff_edge(d: Debouncer, sample: bool)
    requires
        d.wf(),
    ensures
        spec_step(d, sample).confirmed != d.confirmed <==> spec_edge(d, sample) is Some,
        spec_step(d, sample).confirmed != d.confirmed ==> sample != d.confirmed && d.streak + 1
            == DEBOUNCE_COUNT,
{
}

/// The channel state after feeding all the samples in order.
pub open spec fn feed(d: Debouncer, samples: Seq<bool>) -> Debouncer
    decreases samples.len(),
{
    if samples.len() == 0 {
        d
    } else {
        spec_step(feed(d, samples.drop_last()), samples.last())
    }
}

/// The edge emitted by the sample at index `k` of the stream.
pub open spec fn edge_at(d: Debouncer, samples: Seq<bool>, k: int) -> Option<Edge>
    recommends
        0 <= k < samples.len(),
{
    spec_edge(feed(d, samples.take(k)), samples[k])
}

/// Number of trailing samples that disagree with `level`.
pub open spec fn trailing_disagreement(samples: Seq<bool>, level: bool) -> int
    decreases samples.len(),
{
    if samples.len() == 0 || samples.last() == level {
        0
    } else {
        1 + trailing_disagreement(samples.drop_last(), level)
    }
}

/// After any sample stream, the streak counts exactly the trailing samples
/// that disagree with the confirmed level: the confirmed level is never held
/// against DEBOUNCE_COUNT or more unanimous trailing disagreeing samples.
pub proof fn lemma_streak_counts_trailing_disagreement(d: Debouncer, samples: Seq<bool>)
    requires
        d.wf(),
        d.streak == 0,
    ensures
        feed(d, samples).streak == trailing_disagreement(samples, feed(d, samples).confirmed),
        feed(d, samples).wf(),
    decreases samples.len(),
{
    if samples.len() > 0 {
        lemma_streak_counts_trailing_disagreement(d, samples.drop_last());
    }
}

proof fn lemma_feed_partial(d: Debouncer, samples: Seq<bool>, level: bool, j: int)
    requires
        d.wf(),
        d.streak == 0,
        level != d.confirmed,
        0 <= j < DEBOUNCE_COUNT,
        j <= samples.len(),
        forall|k: int| 0 <= k < j ==> samples[k] == level,
    ensures
        feed(d, samples.take(j)) == (Debouncer { confirmed: d.confirmed, streak: j as u8 }),
    decreases j,
{
    if j == 0 {
        assert(samples.take(0) =~= Seq::<bool>::empty());
    } else {
        lemma_feed_partial(d, samples, level, j - 1);
        assert(samples.take(j).drop_last() =~= samples.take(j - 1));
        assert(samples.take(j).last() == level);
    }
}

/// A channel that was stable at the old level and is fed DEBOUNCE_COUNT
/// consecutive samples of the new level emits no edge before the final
/// sample, emits exactly the matching edge on the final one, and ends
/// confirmed at the new level.
pub proof fn lemma_stable_flip(d: Debouncer, samples: Seq<bool>, level: bool)
    requires
        d.wf(),
        d.streak == 0,
        level != d.confirmed,
        samples.len() == DEBOUNCE_COUNT,
        forall|k: int| 0 <= k < samples.len() ==> samples[k] == level,
    ensures
        forall|k: int| 0 <= k < samples.len() - 1 ==> edge_at(d, samples, k) is None,
        edge_at(d, samples, samples.len() - 1) == (if level {
            Some(Edge::Rising)
        } else {
            Some(Edge::Falling)
        }),
        feed(d, samples) == (Debouncer { confirmed: level, streak: 0u8 }),
{
    assert forall|k: int| 0 <= k < samples.len() - 1 implies edge_at(d, samples, k) is None by {
        lemma_feed_partial(d, samples, level, k);
    }
    lemma_feed_partial(d, samples, level, samples.len() - 1);
    assert(samples.take(samples.len() as int) =~= samples);
    assert(samples.take(samples.len() - 1) =~= samples.drop_last());
}

proof fn lemma_glitch_feed(d: Debouncer, samples: Seq<bool>, j: int)
    requires
        d.wf(),
        d.streak == 0,
        0 <= j <= samples.len(),
        forall|k: int, l: int|
            0 <= k < l < samples.len() ==> #[trigger] samples[k] == d.confirmed
                || #[trigger] samples[l] == d.confirmed,
    ensures
        feed(d, samples.take(j)).confirmed == d.confirmed,
        feed(d, samples.take(j)).streak <= 1,
        feed(d, samples.take(j)).streak == 1 ==> j >= 1 && samples[j - 1] != d.confirmed,
    decreases j,
{
    if j == 0 {
        assert(samples.take(0) =~= Seq::<bool>::empty());
    } else {
        lemma_glitch_feed(d, samples, j - 1);
        assert(samples.take(j).drop_last() =~= samples.take(j - 1));
        let prev = feed(d, samples.take(j - 1));
        let s = samples[j - 1];
        if s != d.confirmed && prev.streak == 1 {
            // two disagreeing samples would stand at j - 2 and j - 1
            assert(samples[j - 2] == d.confirmed || samples[j - 1] == d.confirmed);
            assert(false);
        }
    }
}

/// A single-sample glitch amid otherwise stable samples produces no edge and
/// leaves the confirmed level unchanged.
pub proof fn lemma_glitch_no_edge(d: Debouncer, samples: Seq<bool>)
    requires
        d.wf(),
        d.streak == 0,
        forall|k: int, l: int|
            0 <= k < l < samples.len() ==> #[trigger] samples[k] == d.confirmed
                || #[trigger] samples[l] == d.confirmed,
    ensures
        forall|k: int| 0 <= k < samples.len() ==> edge_at(d, samples, k) is None,
        feed(d, samples).confirmed == d.confirmed,
{
    assert forall|k: int| 0 <= k < samples.len() implies edge_at(d, samples, k) is None by {
        lemma_glitch_feed(d, samples, k);
    }
    lemma_glitch_feed(d, samples, samples.len() as int);
    assert(samples.take(samples.len() as int) =~= samples);
}

} // verus!
