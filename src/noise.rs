use vstd::prelude::*;

use crate::audio_channel::AudioChannelState;
use crate::length_counter::LengthCounterState;
use crate::ring_buffer::{pushed, RingBuffer, RingView};
use crate::volume_envelope::VolumeEnvelopeState;

verus! {

/// Slots in the noise channel's sample history.
pub const HISTORY_SIZE: usize = 32768;

/// Length of the channel's scratch debug buffer.
pub const DEBUG_BUFFER_SIZE: usize = 4096;

/// Timer periods that a 4-bit period index selects.
pub open spec fn noise_period_table() -> Seq<u16> {
    seq![4u16, 8, 16, 32, 64, 96, 128, 160, 202, 254, 380, 508, 762, 1016, 2034, 4068]
}

/// One step of the 15-bit feedback register: the feedback bit is bit 0
/// xor bit 1 (bit 6 in short mode), shifted in at bit 14.
pub open spec fn lfsr_step(shift_register: u16, mode: u8) -> u16 {
    let tap: u16 = if mode == 1 {
        6
    } else {
        1
    };
    let feedback: u16 = (shift_register & 1) ^ ((shift_register >> tap) & 1);
    (shift_register >> 1) | (feedback << 14)
}

/// The register after `n` steps.
pub open spec fn lfsr_steps(shift_register: u16, mode: u8, n: nat) -> u16
    decreases n,
{
    if n == 0 {
        shift_register
    } else {
        lfsr_steps(lfsr_step(shift_register, mode), mode, (n - 1) as nat)
    }
}

/// The noise channel as plain values.
pub ghost struct NoiseView {
    pub name: Seq<char>,
    pub chip: Seq<char>,
    pub debug_disable: bool,
    pub debug_buffer: Seq<i16>,
    pub history: RingView,
    pub length: u8,
    pub length_halt_flag: bool,
    pub envelope: VolumeEnvelopeState,
    pub length_counter: LengthCounterState,
    pub mode: u8,
    pub period_initial: u16,
    pub period_current: u16,
    pub shift_register: u16,
}

/// The channel's output level: silent while the length counter is zero,
/// else bit 0 of the register scaled by the envelope's volume.
pub open spec fn noise_output(v: NoiseView) -> i16 {
    if v.length_counter.length > 0 {
        ((v.shift_register & 1) * v.envelope.spec_current_volume()) as i16
    } else {
        0
    }
}

/// The channel after one timer clock.
pub open spec fn noise_clocked(v: NoiseView) -> NoiseView {
    if v.period_current == 0 {
        NoiseView {
            period_current: v.period_initial,
            shift_register: lfsr_step(v.shift_register, v.mode),
            ..v
        }
    } else {
        NoiseView { period_current: (v.period_current - 1) as u16, ..v }
    }
}

/// The channel after `n` timer clocks.
pub open spec fn noise_clocked_n(v: NoiseView, n: nat) -> NoiseView
    decreases n,
{
    if n == 0 {
        v
    } else {
        noise_clocked_n(noise_clocked(v), (n - 1) as nat)
    }
}

/// The noise channel: a linear-feedback shift register stepped by a
/// programmable timer, gated by a length counter and scaled by an envelope.
pub struct NoiseChannelState {
    pub name: String,
    pub chip: String,
    pub debug_disable: bool,
    pub debug_buffer: Vec<i16>,
    pub output_buffer: RingBuffer,
    pub length: u8,
    pub length_halt_flag: bool,
    pub envelope: VolumeEnvelopeState,
    pub length_counter: LengthCounterState,
    /// 1 selects the short sequence.
    pub mode: u8,
    pub period_initial: u16,
    pub period_current: u16,
    /// Only the low 15 bits are used.
    pub shift_register: u16,
}

impl View for NoiseChannelState {
    type V = NoiseView;

    open spec fn view(&self) -> NoiseView {
        NoiseView {
            name: self.name@,
            chip: self.chip@,
            debug_disable: self.debug_disable,
            debug_buffer: self.debug_buffer@,
            history: self.output_buffer@,
            length: self.length,
            length_halt_flag: self.length_halt_flag,
            envelope: self.envelope,
            length_counter: self.length_counter,
            mode: self.mode,
            period_initial: self.period_initial,
            period_current: self.period_current,
            shift_register: self.shift_register,
        }
    }
}

/// The channel view is consistent: a usable history and a 4-bit envelope.
pub open spec fn noise_wf(v: NoiseView) -> bool {
    &&& v.history.slots.len() > 0
    &&& 0 <= v.history.next < v.history.slots.len()
    &&& v.envelope.wf()
}

impl NoiseChannelState {
    pub open spec fn wf(&self) -> bool {
        self.output_buffer.wf() && self.envelope.wf()
    }

    /// A silent channel: register 1, long mode, period 0, zero counters.
    pub fn new(channel_name: &str, chip_name: &str) -> (r: NoiseChannelState)
        ensures
            r.wf(),
            r@.name == channel_name@,
            r@.chip == chip_name@,
            r@.debug_disable == false,
            r@.debug_buffer == Seq::new(DEBUG_BUFFER_SIZE as nat, |_i: int| 0i16),
            r@.history.slots == Seq::new(HISTORY_SIZE as nat, |_i: int| 0i16),
            r@.history.next == 0,
            r@.length == 0,
            r@.length_halt_flag == false,
            r@.envelope == VolumeEnvelopeState::new_state(),
            r@.length_counter == LengthCounterState::new_state(),
            r@.mode == 0,
            r@.period_initial == 0,
            r@.period_current == 0,
            r@.shift_register == 1,
    {
        let mut debug_buffer: Vec<i16> = Vec::with_capacity(DEBUG_BUFFER_SIZE);
        let mut i: usize = 0;
        while i < DEBUG_BUFFER_SIZE
            invariant
                i <= DEBUG_BUFFER_SIZE,
                debug_buffer@ == Seq::new(i as nat, |_i: int| 0i16),
            decreases DEBUG_BUFFER_SIZE - i,
        {
            debug_buffer.push(0i16);
            i = i + 1;
            proof {
                assert(debug_buffer@ =~= Seq::new(i as nat, |_i: int| 0i16));
            }
        }
        NoiseChannelState {
            name: String::from_str(channel_name),
            chip: String::from_str(chip_name),
            debug_disable: false,
            debug_buffer,
            output_buffer: RingBuffer::new(HISTORY_SIZE),
            length: 0,
            length_halt_flag: false,
            envelope: VolumeEnvelopeState::new(),
            length_counter: LengthCounterState::new(),
            mode: 0,
            period_initial: 0,
            period_current: 0,
            shift_register: 1,
        }
    }

    /// One timer clock: count the period down, and when it has run out,
    /// reload it and step the register.
    pub fn clock(&mut self)
        requires
            old(self).wf(),
        ensures
            final(self).wf(),
            final(self)@ == noise_clocked(old(self)@),
    {
        if self.period_current == 0 {
            self.period_current = self.period_initial;
            let mut feedback: u16 = self.shift_register & 0b1;
            if self.mode == 1 {
                feedback = feedback ^ ((self.shift_register >> 6u16) & 0b1);
            } else {
                feedback = feedback ^ ((self.shift_register >> 1u16) & 0b1);
            }
            let sr = self.shift_register;
            assert(feedback <= 1) by (bit_vector)
                requires
                    feedback == (sr & 1) ^ ((sr >> 6u16) & 1) || feedback == (sr & 1) ^ ((sr
                        >> 1u16) & 1),
            ;
            self.shift_register = self.shift_register >> 1u16;
            self.shift_register = self.shift_register | (feedback << 14u16);
        } else {
            self.period_current = self.period_current - 1;
        }
    }

    /// The current output level, in 0 to 15.
    pub fn output(&self) -> (r: i16)
        requires
            self.wf(),
        ensures
            r == noise_output(self@),
            0 <= r <= 15,
    {
        if self.length_counter.length > 0 {
            let sr = self.shift_register;
            assert(sr & 1 == 0 || sr & 1 == 1) by (bit_vector);
            let mut sample = (self.shift_register & 0b1) as i16;
            let volume = self.envelope.current_volume();
            assert(0 <= sample * (volume as i16) <= 15) by (nonlinear_arith)
                requires
                    0 <= sample <= 1,
                    volume <= 15,
            ;
            sample = sample * (volume as i16);
            sample
        } else {
            0
        }
    }

    /// Programs the timer period from the period table.
    pub fn set_period_index(&mut self, index: u8)
        requires
            index < 16,
        ensures
            final(self)@ == (NoiseView {
                period_initial: noise_period_table()[index as int],
                ..old(self)@
            }),
    {
        let table: [u16; 16] = [
            4, 8, 16, 32, 64, 96, 128, 160, 202, 254, 380, 508, 762, 1016, 2034, 4068,
        ];
        assert(table@ =~= noise_period_table());
        self.period_initial = table[index as usize];
    }

    /// Selects the short (metallic) sequence or the long one.
    pub fn set_mode(&mut self, short: bool)
        ensures
            final(self)@ == (NoiseView {
                mode: if short {
                    1u8
                } else {
                    0u8
                },
                ..old(self)@
            }),
    {
        self.mode = if short {
            1
        } else {
            0
        };
    }
}

impl AudioChannelState for NoiseChannelState {
    open spec fn channel_wf(&self) -> bool {
        self.wf()
    }

    open spec fn spec_name(&self) -> Seq<char> {
        self@.name
    }

    open spec fn spec_chip(&self) -> Seq<char> {
        self@.chip
    }

    open spec fn spec_history(&self) -> RingView {
        self@.history
    }

    open spec fn spec_min_sample(&self) -> i16 {
        0
    }

    open spec fn spec_max_sample(&self) -> i16 {
        15
    }

    open spec fn spec_muted(&self) -> bool {
        self@.debug_disable
    }

    fn name(&self) -> (r: String)
        ensures
            r@ == self@.name,
    {
        self.name.clone()
    }

    fn chip(&self) -> (r: String)
        ensures
            r@ == self@.chip,
    {
        self.chip.clone()
    }

    fn sample_buffer(&self) -> (r: &RingBuffer)
        ensures
            r@ == self@.history,
    {
        &self.output_buffer
    }

    fn record_current_output(&mut self)
        ensures
            final(self)@ == (NoiseView {
                history: pushed(old(self)@.history, noise_output(old(self)@)),
                ..old(self)@
            }),
    {
        let sample = self.output();
        self.output_buffer.push(sample);
    }

    fn min_sample(&self) -> (r: i16)
        ensures
            r == 0,
    {
        0
    }

    fn max_sample(&self) -> (r: i16)
        ensures
            r == 15,
    {
        15
    }

    fn muted(&self) -> (r: bool)
        ensures
            r == self@.debug_disable,
    {
        self.debug_disable
    }

    fn mute(&mut self)
        ensures
            final(self)@ == (NoiseView { debug_disable: true, ..old(self)@ }),
    {
        self.debug_disable = true;
    }

    fn unmute(&mut self)
        ensures
            final(self)@ == (NoiseView { debug_disable: false, ..old(self)@ }),
    {
        self.debug_disable = false;
    }
}

/// The output level always lies in 0 to 15.
pub proof fn lemma_output_range(v: NoiseView)
    requires
        v.envelope.wf(),
    ensures
        0 <= noise_output(v) <= 15,
{
    let sr = v.shift_register;
    let volume = v.envelope.spec_current_volume();
    assert(sr & 1 == 0 || sr & 1 == 1) by (bit_vector);
    if sr & 1 == 1 {
        assert((sr & 1) * volume == volume);
    } else {
        assert((sr & 1) * volume == 0);
    }
}

/// With a period of zero every timer clock steps the register once, and
/// nothing else in the channel moves.
pub proof fn lemma_period_zero_steps(v: NoiseView, n: nat)
    requires
        v.period_initial == 0,
        v.period_current == 0,
    ensures
        noise_clocked_n(v, n) == (NoiseView {
            shift_register: lfsr_steps(v.shift_register, v.mode, n),
            ..v
        }),
    decreases n,
{
    if n > 0 {
        lemma_period_zero_steps(noise_clocked(v), (n - 1) as nat);
    }
}

/// A zeroed length counter silences the channel whatever the register and
/// envelope hold, and neither timer clocks, envelope clocks nor length
/// clocks bring the sound back.
pub proof fn lemma_length_gating(v: NoiseView)
    requires
        v.length_counter.length == 0,
    ensures
        noise_output(v) == 0,
        noise_output(noise_clocked(v)) == 0,
        noise_output(NoiseView { envelope: v.envelope.clocked(), ..v }) == 0,
        noise_output(NoiseView { length_counter: v.length_counter.clocked(), ..v }) == 0,
        forall|sr: u16, env: VolumeEnvelopeState|
            noise_output(NoiseView { shift_register: sr, envelope: env, ..v }) == 0,
{
}

} // verus!
