//! Per-frame timing data handed to the shaders.
use vstd::prelude::*;

verus! {

/// Frame counter and timing, with times held in nanoseconds.
#[derive(Clone, Copy, Debug, PartialEq, Eq)]
pub struct DataUniform {
    /// Number of updates applied so far.
    pub frame: u32,
    /// Length of the last update step.
    pub delta_time: u64,
    /// Sum of every update step.
    pub time: u64,
}

impl DataUniform {
    /// A counter at frame zero with no time elapsed.
    pub fn new() -> (r: Self)
        ensures
            r.frame == 0,
            r.delta_time == 0,
            r.time == 0,
    {
        DataUniform { frame: 0, delta_time: 0, time: 0 }
    }

    /// Whether one more step of `delta_time` can be taken without overflow.
    pub open spec fn can_advance(self, delta_time: u64) -> bool {
        self.frame < u32::MAX && self.time + delta_time <= u64::MAX
    }

    /// Advances one frame by `delta_time` nanoseconds.
    pub fn update(&mut self, delta_time: u64)
        requires
            old(self).can_advance(delta_time),
        ensures
            final(self).frame == old(self).frame + 1,
            final(self).delta_time == delta_time,
            final(self).time == old(self).time + delta_time,
            is_update(*old(self), *final(self), delta_time),
    {
        self.frame = self.frame + 1;
        self.delta_time = delta_time;
        self.time = self.time + delta_time;
    }
}

/// `after` is `before` advanced by one update of `delta_time` nanoseconds.
pub open spec fn is_update(before: DataUniform, after: DataUniform, delta_time: u64) -> bool {
    &&& after.frame == before.frame + 1
    &&& after.delta_time == delta_time
    &&& after.time == before.time + delta_time
}

/// The sum of a sequence of steps.
pub open spec fn total(deltas: Seq<u64>) -> int
    decreases deltas.len(),
{
    if deltas.len() == 0 {
        0
    } else {
        total(deltas.drop_last()) + deltas.last()
    }
}

/// Over successive updates, each one raises the frame counter by exactly one and
/// never lowers the time; in all, the counter rises by the number of updates and
/// the time by the sum of their steps.
pub proof fn lemma_successive_updates(states: Seq<DataUniform>, deltas: Seq<u64>)
    requires
        states.len() == deltas.len() + 1,
        forall|i: int| 0 <= i < deltas.len() ==> is_update(#[trigger] states[i], states[i + 1], deltas[i]),
    ensures
        states.last().frame == states[0].frame + deltas.len(),
        states.last().time == states[0].time + total(deltas),
        forall|i: int| 0 <= i < deltas.len() ==> #[trigger] states[i + 1].frame == states[i].frame + 1
            && states[i + 1].time >= states[i].time,
    decreases deltas.len(),
{
    if deltas.len() > 0 {
        let k = deltas.len() - 1;
        assert(is_update(states[k], states[k + 1], deltas[k]));
        lemma_successive_updates(states.drop_last(), deltas.drop_last());
        assert(states.drop_last().last() == states[k]);
        assert forall|i: int| 0 <= i < deltas.len() implies #[trigger] states[i + 1].frame == states[i].frame + 1
            && states[i + 1].time >= states[i].time by {
            assert(is_update(states[i], states[i + 1], deltas[i]));
        }
    }
}

} // verus!
