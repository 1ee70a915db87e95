use vstd::prelude::*;

use crate::audio_channel::AudioChannelState;
use crate::dispatch::EventHandler;
use crate::events::Event;
use crate::noise::{
    noise_clocked, noise_clocked_n, noise_output, noise_wf, NoiseChannelState, NoiseView,
};
use crate::nrom::{Nrom, NromView, VRAM_SIZE};
use crate::ring_buffer::pushed;

verus! {

/// Scanlines in one video frame.
pub const SCANLINES_PER_FRAME: u16 = 262;

/// Timer clocks that the noise channel gets in one scanline.
pub const TIMER_CLOCKS_PER_SCANLINE: u32 = 113;

/// Factor from a channel level (0 to 15) to a 16-bit sample.
pub const NOISE_MIX_SCALE: i16 = 512;

/// The scanline after `line`.
pub open spec fn next_line(line: u16) -> u16 {
    ((line + 1) % (SCANLINES_PER_FRAME as int)) as u16
}

/// The frame-sequencer ticks that reaching scanline `line` raises: four
/// quarter-frame ticks and two half-frame ticks per frame.
pub open spec fn frame_ticks(line: u16) -> Seq<Event> {
    if line == 65 || line == 195 {
        seq![Event::ApuQuarterFrame]
    } else if line == 0 || line == 130 {
        seq![Event::ApuQuarterFrame, Event::ApuHalfFrame]
    } else {
        Seq::empty()
    }
}

/// The channel's contribution to the mix: nothing while muted.
pub open spec fn mixed_sample(n: NoiseView) -> i16 {
    if n.debug_disable {
        0
    } else {
        (noise_output(n) * NOISE_MIX_SCALE) as i16
    }
}

/// The emulated machine as plain values.
pub ghost struct MachineView {
    pub mapper: NromView,
    pub noise: NoiseView,
    pub scanline: u16,
    pub samples: Seq<i16>,
}

/// The machine after one scanline: the channel is clocked for the scanline,
/// its output is recorded in its history and mixed into the samples.
pub open spec fn run_scanline(v: MachineView) -> MachineView {
    let c = noise_clocked_n(v.noise, TIMER_CLOCKS_PER_SCANLINE as nat);
    MachineView {
        noise: NoiseView { history: pushed(c.history, noise_output(c)), ..c },
        samples: v.samples.push(mixed_sample(c)),
        scanline: next_line(v.scanline),
        ..v
    }
}

/// The machine view is consistent.
pub open spec fn machine_wf(v: MachineView) -> bool {
    &&& v.mapper.vram.len() == VRAM_SIZE
    &&& noise_wf(v.noise)
    &&& v.scanline < SCANLINES_PER_FRAME
}

/// Clocking `n + 1` times is clocking `n` times and then once more.
pub proof fn lemma_clocked_n_step(v: NoiseView, n: nat)
    ensures
        noise_clocked_n(v, n + 1) == noise_clocked(noise_clocked_n(v, n)),
    decreases n,
{
    reveal_with_fuel(noise_clocked_n, 2);
    if n > 0 {
        lemma_clocked_n_step(noise_clocked(v), (n - 1) as nat);
    }
}

/// The emulated hardware: the cartridge board, the sound channel, the
/// scanline counter and the samples not yet handed out. It reacts to the
/// hardware events only.
pub struct Machine {
    mapper: Nrom,
    noise: NoiseChannelState,
    scanline: u16,
    samples: Vec<i16>,
}

impl View for Machine {
    type V = MachineView;

    closed spec fn view(&self) -> MachineView {
        MachineView {
            mapper: self.mapper@,
            noise: self.noise@,
            scanline: self.scanline,
            samples: self.samples@,
        }
    }
}

impl EventHandler<Event> for Machine {
    open spec fn handler_wf(state: MachineView) -> bool {
        machine_wf(state)
    }

    open spec fn responses(state: MachineView, event: Event) -> Seq<Event> {
        match event {
            Event::NesRunScanline => frame_ticks(next_line(state.scanline)),
            _ => Seq::empty(),
        }
    }

    open spec fn after(state: MachineView, event: Event) -> MachineView {
        match event {
            Event::NesRunScanline => run_scanline(state),
            Event::ApuQuarterFrame => MachineView {
                noise: NoiseView { envelope: state.noise.envelope.clocked(), ..state.noise },
                ..state
            },
            Event::ApuHalfFrame => MachineView {
                noise: NoiseView {
                    length_counter: state.noise.length_counter.clocked(),
                    ..state.noise
                },
                ..state
            },
            _ => state,
        }
    }

    fn handle(&mut self, event: Event) -> (r: Vec<Event>) {
        self.react(&event)
    }
}

impl Machine {
    /// A machine at scanline 0 with no samples.
    pub fn new(mapper: Nrom, noise: NoiseChannelState) -> (r: Machine)
        requires
            mapper.wf(),
            noise.wf(),
        ensures
            machine_wf(r@),
            r@ == (MachineView {
                mapper: mapper@,
                noise: noise@,
                scanline: 0,
                samples: Seq::empty(),
            }),
    {
        Machine { mapper, noise, scanline: 0, samples: Vec::new() }
    }

    pub open spec fn wf(&self) -> bool {
        machine_wf(self@)
    }

    /// Reacts to `event` as the hardware does; events that are not hardware
    /// ticks leave it alone.
    pub fn react(&mut self, event: &Event) -> (r: Vec<Event>)
        requires
            old(self).wf(),
        ensures
            final(self).wf(),
            r@ == <Machine as EventHandler<Event>>::responses(old(self)@, *event),
            final(self)@ == <Machine as EventHandler<Event>>::after(old(self)@, *event),
    {
        match event {
            Event::NesRunScanline => {
                self.run_one_scanline();
                let mut ticks: Vec<Event> = Vec::new();
                if self.scanline == 65 || self.scanline == 195 {
                    ticks.push(Event::ApuQuarterFrame);
                } else if self.scanline == 0 || self.scanline == 130 {
                    ticks.push(Event::ApuQuarterFrame);
                    ticks.push(Event::ApuHalfFrame);
                }
                assert(ticks@ =~= frame_ticks(self.scanline));
                ticks
            },
            Event::ApuQuarterFrame => {
                self.noise.envelope.clock();
                Vec::new()
            },
            Event::ApuHalfFrame => {
                self.noise.length_counter.clock();
                Vec::new()
            },
            _ => Vec::new(),
        }
    }

    fn run_one_scanline(&mut self)
        requires
            old(self).wf(),
        ensures
            final(self).wf(),
            final(self)@ == run_scanline(old(self)@),
    {
        let ghost start = self.noise@;
        let mut i: u32 = 0;
        while i < TIMER_CLOCKS_PER_SCANLINE
            invariant
                i <= TIMER_CLOCKS_PER_SCANLINE,
                self.noise.wf(),
                self.noise@ == noise_clocked_n(start, i as nat),
                self@ == (MachineView { noise: self.noise@, ..old(self)@ }),
            decreases TIMER_CLOCKS_PER_SCANLINE - i,
        {
            proof {
                lemma_clocked_n_step(start, i as nat);
            }
            self.noise.clock();
            i = i + 1;
        }
        let level = self.noise.output();
        let sample: i16 = if self.noise.muted() {
            0
        } else {
            level * NOISE_MIX_SCALE
        };
        self.noise.record_current_output();
        self.samples.push(sample);
        self.scanline = (self.scanline + 1) % SCANLINES_PER_FRAME;
    }

    pub fn scanline(&self) -> (r: u16)
        ensures
            r == self@.scanline,
    {
        self.scanline
    }

    pub fn mapper(&self) -> (r: &Nrom)
        ensures
            r@ == self@.mapper,
    {
        &self.mapper
    }

    pub fn noise(&self) -> (r: &NoiseChannelState)
        ensures
            r@ == self@.noise,
    {
        &self.noise
    }

    /// Hands out the samples made so far, oldest first, and forgets them.
    pub fn take_samples(&mut self) -> (r: Vec<i16>)
        requires
            old(self).wf(),
        ensures
            final(self).wf(),
            r@ == old(self)@.samples,
            final(self)@ == (MachineView { samples: Seq::empty(), ..old(self)@ }),
    {
        let mut out: Vec<i16> = Vec::new();
        std::mem::swap(&mut out, &mut self.samples);
        out
    }
}

} // verus!
