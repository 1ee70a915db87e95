use vstd::prelude::*;

use crate::ring_buffer::{RingBuffer, RingView};

verus! {

/// What every sound-generating channel offers to mixing and visualisation:
/// its identity, its sample history, its output range, and a reversible
/// debug mute.
pub trait AudioChannelState {
    /// The channel's own consistency condition.
    spec fn channel_wf(&self) -> bool;

    spec fn spec_name(&self) -> Seq<char>;

    spec fn spec_chip(&self) -> Seq<char>;

    spec fn spec_history(&self) -> RingView;

    spec fn spec_min_sample(&self) -> i16;

    spec fn spec_max_sample(&self) -> i16;

    spec fn spec_muted(&self) -> bool;

    fn name(&self) -> (r: String)
        ensures
            r@ == self.spec_name(),
    ;

    fn chip(&self) -> (r: String)
        ensures
            r@ == self.spec_chip(),
    ;

    fn sample_buffer(&self) -> (r: &RingBuffer)
        ensures
            r@ == self.spec_history(),
    ;

    /// Appends the current output to the sample history, leaving the
    /// channel's identity, range and mute as they were.
    fn record_current_output(&mut self)
        requires
            old(self).channel_wf(),
        ensures
            final(self).channel_wf(),
            final(self).spec_name() == old(self).spec_name(),
            final(self).spec_chip() == old(self).spec_chip(),
            final(self).spec_muted() == old(self).spec_muted(),
            final(self).spec_min_sample() == old(self).spec_min_sample(),
            final(self).spec_max_sample() == old(self).spec_max_sample(),
    ;

    fn min_sample(&self) -> (r: i16)
        ensures
            r == self.spec_min_sample(),
            r <= self.spec_max_sample(),
    ;

    fn max_sample(&self) -> (r: i16)
        ensures
            r == self.spec_max_sample(),
            self.spec_min_sample() <= r,
    ;

    fn muted(&self) -> (r: bool)
        ensures
            r == self.spec_muted(),
    ;

    /// Silences the channel's contribution; nothing else of it changes.
    fn mute(&mut self)
        ensures
            final(self).spec_muted(),
            final(self).spec_name() == old(self).spec_name(),
            final(self).spec_chip() == old(self).spec_chip(),
            final(self).spec_history() == old(self).spec_history(),
            final(self).channel_wf() == old(self).channel_wf(),
    ;

    /// Restores the channel's contribution; nothing else of it changes.
    fn unmute(&mut self)
        ensures
            !final(self).spec_muted(),
            final(self).spec_name() == old(self).spec_name(),
            final(self).spec_chip() == old(self).spec_chip(),
            final(self).spec_history() == old(self).spec_history(),
            final(self).channel_wf() == old(self).channel_wf(),
    ;
}

} // verus!
