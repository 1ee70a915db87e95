use vstd::prelude::*;

verus! {

/// The lengths that a 5-bit length index selects.
pub open spec fn length_table() -> Seq<u8> {
    seq![
        10u8, 254, 20, 2, 40, 4, 80, 6, 160, 8, 60, 10, 14, 12, 26, 14,
        12, 16, 24, 18, 48, 20, 96, 22, 192, 24, 72, 26, 16, 28, 32, 30,
    ]
}

/// A down-counter that silences its channel when it reaches zero, clocked
/// once per half frame.
#[derive(Clone, Copy, Debug, PartialEq, Eq, Structural)]
pub struct LengthCounterState {
    pub length: u8,
    /// While set, clocks leave the count alone.
    pub halt_flag: bool,
    pub channel_enabled: bool,
}

impl LengthCounterState {
    /// The state after one half-frame clock.
    pub open spec fn clocked(self) -> LengthCounterState {
        if !self.halt_flag && self.length > 0 {
            LengthCounterState { length: (self.length - 1) as u8, ..self }
        } else {
            self
        }
    }

    /// The state that `new` makes: a zero count on a disabled channel.
    pub open spec fn new_state() -> LengthCounterState {
        LengthCounterState { length: 0, halt_flag: false, channel_enabled: false }
    }

    pub fn new() -> (r: LengthCounterState)
        ensures
            r == Self::new_state(),
    {
        LengthCounterState { length: 0, halt_flag: false, channel_enabled: false }
    }

    /// One half-frame clock.
    pub fn clock(&mut self)
        ensures
            *final(self) == old(self).clocked(),
    {
        if !self.halt_flag && self.length > 0 {
            self.length = self.length - 1;
        }
    }

    /// Loads the count from the table when the channel is enabled.
    pub fn set_length(&mut self, index: u8)
        requires
            index < 32,
        ensures
            *final(self) == (if old(self).channel_enabled {
                LengthCounterState { length: length_table()[index as int], ..*old(self) }
            } else {
                *old(self)
            }),
    {
        let table: [u8; 32] = [
            10, 254, 20, 2, 40, 4, 80, 6, 160, 8, 60, 10, 14, 12, 26, 14,
            12, 16, 24, 18, 48, 20, 96, 22, 192, 24, 72, 26, 16, 28, 32, 30,
        ];
        assert(table@ =~= length_table());
        if self.channel_enabled {
            self.length = table[index as usize];
        }
    }

    /// Enables or disables the channel; disabling clears the count.
    pub fn set_enabled(&mut self, enabled: bool)
        ensures
            *final(self) == (LengthCounterState {
                channel_enabled: enabled,
                length: if enabled {
                    old(self).length
                } else {
                    0
                },
                ..*old(self)
            }),
    {
        self.channel_enabled = enabled;
        if !enabled {
            self.length = 0;
        }
    }
}

} // verus!
