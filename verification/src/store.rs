//! The shared sample store: the most recent analog readings, published
//! wholesale by the periodic sampler and read by any consumer task.
//!
//! The store starts empty ("not yet sampled") and afterwards always holds
//! exactly one reading per channel, in channel-index order. A publish
//! replaces the whole vector in one step, so a reader sees either the old
//! vector or the new one entire, never a mixture; the caller that shares
//! the store between tasks puts it behind its mutual-exclusion primitive.

use vstd::prelude::*;
use crate::containers::sample_elems;
use crate::containers::sample_vec_new;
use crate::containers::sample_vec_push;
use crate::containers::sample_vec_get;
use crate::containers::sample_vec_len;
use crate::containers::sample_vec_clone;
use crate::N_CHANNELS;
use crate::AMBIENT_CHANNEL;

verus! {

pub struct SampleStore {
    samples: heapless::Vec<u16, N_CHANNELS>,
}

impl SampleStore {
    /// The readings currently held, one per channel, channel 0 first.
    pub closed spec fn samples(&self) -> Seq<u16> {
        sample_elems(self.samples)
    }

    /// The store is either untouched since startup or holds a full cycle.
    pub open spec fn wf(&self) -> bool {
        self.samples().len() == 0 || self.samples().len() == N_CHANNELS
    }

    /// True once a sampler cycle has completed.
    pub open spec fn is_sampled(&self) -> bool {
        self.samples().len() == N_CHANNELS
    }

    /// A fresh store, before the first sampler cycle.
    pub fn new() -> (s: SampleStore)
        ensures
            s.samples() =~= Seq::<u16>::empty(),
            s.wf(),
            !s.is_sampled(),
    {
        SampleStore { samples: sample_vec_new() }
    }

    /// Replaces the stored vector wholesale. The reader never sees a
    /// mixture: afterwards every channel holds a value of `v`.
    pub fn publish_samples(&mut self, v: heapless::Vec<u16, N_CHANNELS>)
        requires
            sample_elems(v).len() == N_CHANNELS,
        ensures
            final(self).samples() =~= sample_elems(v),
            final(self).wf(),
            final(self).is_sampled(),
    {
        self.samples = v;
    }

    /// One sampler cycle's publish: takes the readings of one cycle,
    /// channel 0 first, and stores them wholesale.
    pub fn publish_from_readings(&mut self, readings: &Vec<u16>)
        requires
            readings@.len() == N_CHANNELS,
        ensures
            final(self).samples() =~= readings@,
            final(self).wf(),
            final(self).is_sampled(),
    {
        let mut v = sample_vec_new();
        let mut i: usize = 0;
        while i < N_CHANNELS
            invariant
                i <= N_CHANNELS,
                readings@.len() == N_CHANNELS,
                sample_elems(v) =~= readings@.take(i as int),
            decreases N_CHANNELS - i,
        {
            let _ok = sample_vec_push(&mut v, readings[i]);
            proof {
                assert(sample_elems(v) =~= readings@.take(i + 1));
            }
            i = i + 1;
        }
        proof {
            assert(readings@.take(N_CHANNELS as int) =~= readings@);
        }
        self.publish_samples(v);
    }

    /// The latest complete snapshot; empty while not yet sampled.
    pub fn read_samples(&self) -> (r: heapless::Vec<u16, N_CHANNELS>)
        ensures
            sample_elems(r) =~= self.samples(),
    {
        sample_vec_clone(&self.samples)
    }

    /// The latest reading of one channel, or `None` while the store is
    /// not yet sampled or the channel index is out of range.
    pub fn read_channel(&self, i: usize) -> (r: Option<u16>)
        ensures
            r == (if i < self.samples().len() {
                Some(self.samples()[i as int])
            } else {
                None::<u16>
            }),
    {
        let n = sample_vec_len(&self.samples);
        if i < n {
            Some(sample_vec_get(&self.samples, i))
        } else {
            None
        }
    }

    /// The most recent ambient-light reading, or `None` while not yet
    /// sampled.
    pub fn ambient_level(&self) -> (r: Option<u16>)
        requires
            self.wf(),
        ensures
            self.is_sampled() ==> r == Some(self.samples()[AMBIENT_CHANNEL as int]),
            !self.is_sampled() ==> r is None,
    {
        self.read_channel(AMBIENT_CHANNEL)
    }
}

/// After one sampler cycle publishes its readings, a read returns a vector
/// of length exactly `N_CHANNELS` holding one value per channel in
/// channel-index order.
pub proof fn lemma_read_after_cycle(s: SampleStore, readings: Seq<u16>)
    requires
        readings.len() == N_CHANNELS,
        s.samples() =~= readings,
    ensures
        s.is_sampled(),
        s.samples().len() == N_CHANNELS,
        forall|i: int| 0 <= i < N_CHANNELS ==> s.samples()[i] == readings[i],
{
}

/// A publish is wholesale: afterwards every channel holds the published
/// value for that channel, so no snapshot mixes old readings with new ones.
pub proof fn lemma_publish_is_wholesale(before: SampleStore, after: SampleStore, v: Seq<u16>)
    requires
        v.len() == N_CHANNELS,
        after.samples() =~= v,
    ensures
        forall|i: int| 0 <= i < N_CHANNELS ==> after.samples()[i] == v[i],
        forall|i: int|
            0 <= i < N_CHANNELS && i < before.samples().len() && before.samples()[i] != v[i]
                ==> after.samples()[i] != before.samples()[i],
{
}

} // verus!
