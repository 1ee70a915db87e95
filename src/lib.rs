//! The cartridge bus and sound generation of an 8-bit console, and the
//! event-driven loop that paces emulation against an audio queue.
//!
//! - `memory_block`, `mirroring` and `nrom` route CPU and PPU accesses to
//!   cartridge memory and nametable VRAM.
//! - `volume_envelope`, `length_counter`, `ring_buffer`, `audio_channel` and
//!   `noise` make up the noise channel.
//! - `dispatch` runs events depth first. Of the handlers, `machine` reacts
//!   to hardware ticks and `worker` hands each event to the machine and
//!   then does its own host-side work; `pacing` decides how far emulation
//!   runs ahead of the audio sink.

pub mod memory_block;
pub mod mirroring;
pub mod nrom;
pub mod volume_envelope;
pub mod length_counter;
pub mod ring_buffer;
pub mod audio_channel;
pub mod noise;
pub mod dispatch;
pub mod scripted;
pub mod events;
pub mod machine;
pub mod worker;
pub mod pacing;
pub mod palette;
