use nes_core::audio_channel::AudioChannelState;
use nes_core::length_counter::LengthCounterState;
use nes_core::noise::NoiseChannelState;
use nes_core::ring_buffer::RingBuffer;
use nes_core::volume_envelope::VolumeEnvelopeState;

#[test]
fn noise_starts_silent() {
    let noise = NoiseChannelState::new("Noise", "2A03");
    assert_eq!(noise.name(), "Noise");
    assert_eq!(noise.chip(), "2A03");
    assert_eq!(noise.shift_register, 1);
    assert_eq!(noise.output(), 0);
    assert_eq!(noise.min_sample(), 0);
    assert_eq!(noise.max_sample(), 15);
    assert!(!noise.muted());
}

#[test]
fn noise_register_steps() {
    let mut noise = NoiseChannelState::new("Noise", "2A03");
    noise.clock();
    // feedback = bit0 ^ bit1 = 1, shifted in at bit 14
    assert_eq!(noise.shift_register, 0x4000);
    let mut short = NoiseChannelState::new("Noise", "2A03");
    short.set_mode(true);
    short.shift_register = 0x41;
    short.clock();
    // bit0 ^ bit6 = 0
    assert_eq!(short.shift_register, 0x20);
}

#[test]
fn noise_period_counts_down() {
    let mut noise = NoiseChannelState::new("Noise", "2A03");
    noise.set_period_index(0);
    assert_eq!(noise.period_initial, 4);
    noise.set_period_index(15);
    assert_eq!(noise.period_initial, 4068);
    noise.set_period_index(0);
    noise.clock();
    assert_eq!(noise.period_current, 4);
    assert_eq!(noise.shift_register, 0x4000);
    for _ in 0..4 {
        noise.clock();
    }
    assert_eq!(noise.period_current, 0);
    assert_eq!(noise.shift_register, 0x4000);
    noise.clock();
    assert_eq!(noise.shift_register, 0x2000);
}

#[test]
fn noise_long_sequence_period() {
    let mut noise = NoiseChannelState::new("Noise", "2A03");
    let mut seen_start = 0;
    for step in 1..=32767u32 {
        noise.clock();
        if noise.shift_register == 1 {
            seen_start = step;
            break;
        }
    }
    assert_eq!(seen_start, 32767);
}

#[test]
fn noise_output_scaled_by_volume() {
    let mut noise = NoiseChannelState::new("Noise", "2A03");
    noise.length_counter.length = 10;
    noise.envelope.set_volume_register(9);
    assert_eq!(noise.output(), 9);
    noise.envelope.set_volume_register(0x1F);
    assert_eq!(noise.output(), 15);
    noise.shift_register = 2;
    assert_eq!(noise.output(), 0);
}

#[test]
fn noise_output_in_range() {
    let mut noise = NoiseChannelState::new("Noise", "2A03");
    noise.length_counter.length = 20;
    noise.envelope.set_volume_register(15);
    for _ in 0..1000 {
        noise.clock();
        let out = noise.output();
        assert!(out == 0 || out == 15);
    }
}

#[test]
fn zero_length_silences() {
    let mut noise = NoiseChannelState::new("Noise", "2A03");
    noise.envelope.set_volume_register(15);
    noise.shift_register = 0x7FFF;
    assert_eq!(noise.output(), 0);
    noise.envelope.restart();
    noise.envelope.clock();
    noise.clock();
    noise.length_counter.clock();
    assert_eq!(noise.length_counter.length, 0);
    assert_eq!(noise.output(), 0);
}

#[test]
fn length_counter_counts_and_halts() {
    let mut counter = LengthCounterState::new();
    counter.set_length(1);
    assert_eq!(counter.length, 0);
    counter.set_enabled(true);
    counter.set_length(1);
    assert_eq!(counter.length, 254);
    counter.clock();
    assert_eq!(counter.length, 253);
    counter.halt_flag = true;
    counter.clock();
    assert_eq!(counter.length, 253);
    counter.set_enabled(false);
    assert_eq!(counter.length, 0);
}

#[test]
fn envelope_decays_and_loops() {
    let mut env = VolumeEnvelopeState::new();
    env.set_volume_register(1);
    env.enabled = true;
    env.restart();
    env.clock();
    assert_eq!(env.current_volume(), 15);
    assert_eq!(env.divider, 1);
    env.clock();
    assert_eq!(env.divider, 0);
    env.clock();
    assert_eq!(env.current_volume(), 14);
    env.decay = 0;
    env.divider = 0;
    env.clock();
    assert_eq!(env.current_volume(), 0);
    env.looping = true;
    env.divider = 0;
    env.clock();
    assert_eq!(env.current_volume(), 15);
}

#[test]
fn ring_buffer_wraps() {
    let mut ring = RingBuffer::new(3);
    ring.push(1);
    ring.push(2);
    ring.push(3);
    assert_eq!(ring.index(), 0);
    ring.push(4);
    assert_eq!(ring.buffer(), vec![4, 2, 3]);
    assert_eq!(ring.index(), 1);
}

#[test]
fn record_and_mute() {
    let mut noise = NoiseChannelState::new("Noise", "2A03");
    noise.length_counter.length = 5;
    noise.envelope.set_volume_register(7);
    noise.record_current_output();
    assert_eq!(noise.sample_buffer().buffer()[0], 7);
    assert_eq!(noise.sample_buffer().index(), 1);
    noise.mute();
    assert!(noise.muted());
    assert_eq!(noise.output(), 7);
    noise.unmute();
    assert!(!noise.muted());
}
