use vstd::prelude::*;

verus! {

/// What drives the emulation: hardware ticks and host commands.
pub enum Event {
    /// Run the machine for one scanline.
    NesRunScanline,
    /// A quarter-frame tick of the frame sequencer: envelopes step.
    ApuQuarterFrame,
    /// A half-frame tick of the frame sequencer: length counters step.
    ApuHalfFrame,
    /// A full frame has been drawn.
    RequestFrame,
    /// A cartridge has been loaded, under the given name.
    CartridgeLoaded(String),
    /// Persist battery RAM: a target name and the contents.
    SaveSram(String, Vec<u8>),
    /// Close the session once pending work is done.
    CloseApplication,
    ApplyBooleanSetting(String, bool),
    ApplyIntegerSetting(String, i64),
    ApplyStringSetting(String, String),
}

/// What the worker reports to the host.
pub enum ShellNotice {
    /// Whether the loaded cartridge has battery RAM.
    HasSram(bool),
    /// A setting at the given dotted path changed.
    SettingsUpdated(String),
    /// Battery RAM to be written under a target name.
    WriteSram(String, Vec<u8>),
}

} // verus!
