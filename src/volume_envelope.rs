use vstd::prelude::*;

verus! {

/// The decay/hold/loop volume unit of a channel, clocked once per quarter
/// frame.
#[derive(Clone, Copy, Debug, PartialEq, Eq, Structural)]
pub struct VolumeEnvelopeState {
    /// The programmed 4-bit volume, also the divider's reload value.
    pub volume_register: u8,
    /// The decaying level, 15 down to 0.
    pub decay: u8,
    pub divider: u8,
    /// Whether the decaying level drives the volume (else the register does).
    pub enabled: bool,
    pub looping: bool,
    pub start_flag: bool,
}

impl VolumeEnvelopeState {
    /// Both levels fit in four bits.
    pub open spec fn wf(&self) -> bool {
        self.volume_register <= 15 && self.decay <= 15
    }

    pub open spec fn spec_current_volume(&self) -> u8 {
        if self.enabled {
            self.decay
        } else {
            self.volume_register
        }
    }

    /// The state after one quarter-frame clock.
    pub open spec fn clocked(self) -> VolumeEnvelopeState {
        if self.start_flag {
            VolumeEnvelopeState {
                decay: 15,
                start_flag: false,
                divider: self.volume_register,
                ..self
            }
        } else if self.divider == 0 {
            VolumeEnvelopeState {
                divider: self.volume_register,
                decay: if self.decay > 0 {
                    (self.decay - 1) as u8
                } else if self.looping {
                    15
                } else {
                    0
                },
                ..self
            }
        } else {
            VolumeEnvelopeState { divider: (self.divider - 1) as u8, ..self }
        }
    }

    /// The state that `new` makes: everything zero and off.
    pub open spec fn new_state() -> VolumeEnvelopeState {
        VolumeEnvelopeState {
            volume_register: 0,
            decay: 0,
            divider: 0,
            enabled: false,
            looping: false,
            start_flag: false,
        }
    }

    pub fn new() -> (r: VolumeEnvelopeState)
        ensures
            r.wf(),
            r == Self::new_state(),
    {
        VolumeEnvelopeState {
            volume_register: 0,
            decay: 0,
            divider: 0,
            enabled: false,
            looping: false,
            start_flag: false,
        }
    }

    /// The volume that the channel's output is scaled by.
    pub fn current_volume(&self) -> (r: u8)
        requires
            self.wf(),
        ensures
            r == self.spec_current_volume(),
            r <= 15,
    {
        if self.enabled {
            self.decay
        } else {
            self.volume_register
        }
    }

    /// One quarter-frame clock.
    pub fn clock(&mut self)
        requires
            old(self).wf(),
        ensures
            *final(self) == old(self).clocked(),
            final(self).wf(),
    {
        if self.start_flag {
            self.decay = 15;
            self.start_flag = false;
            self.divider = self.volume_register;
        } else if self.divider == 0 {
            self.divider = self.volume_register;
            if self.decay > 0 {
                self.decay = self.decay - 1;
            } else if self.looping {
                self.decay = 15;
            }
        } else {
            self.divider = self.divider - 1;
        }
    }

    /// Programs the 4-bit volume; the upper bits of `value` are dropped.
    pub fn set_volume_register(&mut self, value: u8)
        requires
            old(self).wf(),
        ensures
            *final(self) == (VolumeEnvelopeState { volume_register: value % 16, ..*old(self) }),
            final(self).wf(),
    {
        self.volume_register = value % 16;
    }

    /// Asks for the decay to restart at the next clock.
    pub fn restart(&mut self)
        ensures
            *final(self) == (VolumeEnvelopeState { start_flag: true, ..*old(self) }),
    {
        self.start_flag = true;
    }
}

} // verus!
