use nes_core::audio_channel::AudioChannelState;
use nes_core::dispatch::dispatch_event;
use nes_core::events::{Event, ShellNotice};
use nes_core::machine::Machine;
use nes_core::mirroring::Mirroring;
use nes_core::noise::NoiseChannelState;
use nes_core::nrom::{CartridgeImage, Nrom};
use nes_core::pacing::{should_step, LOW_WATER_MARK};
use nes_core::scripted::ScriptedHandler;
use nes_core::worker::Worker;

fn board(nvram: usize) -> Nrom {
    Nrom::from_ines(CartridgeImage {
        prg_rom: vec![0xEA; 0x2000],
        prg_ram_size: 0,
        prg_nvram_size: nvram,
        chr_rom: vec![0; 0x2000],
        chr_ram_size: 0,
        mirroring: Mirroring::Horizontal,
    })
    .unwrap()
}

fn loud_noise() -> NoiseChannelState {
    let mut noise = NoiseChannelState::new("Noise", "2A03");
    noise.length_counter.length = 200;
    noise.envelope.set_volume_register(15);
    noise
}

#[test]
fn dispatch_is_depth_first() {
    let mut h = ScriptedHandler::new(vec![vec![1, 2], vec![3], vec![4], vec![], vec![]]);
    assert!(dispatch_event(&mut h, 0, 8));
    assert_eq!(h.log(), vec![0, 1, 3, 2, 4]);
}

#[test]
fn dispatch_stops_runaway_cascade() {
    let mut h = ScriptedHandler::new(vec![vec![0]]);
    assert!(!dispatch_event(&mut h, 0, 3));
    assert_eq!(h.log(), vec![0, 0, 0, 0]);
}

#[test]
fn worker_reports_sram_and_settings() {
    let mut w = Worker::new(board(0x2000), loud_noise());
    assert!(w.dispatch_event(Event::CartridgeLoaded("game".to_string())));
    w.dispatch_event(Event::ApplyBooleanSetting("audio.mute".to_string(), true));
    w.dispatch_event(Event::SaveSram("game.sav".to_string(), vec![1, 2]));
    let notices = w.take_notices();
    assert_eq!(notices.len(), 3);
    assert!(matches!(notices[0], ShellNotice::HasSram(true)));
    assert!(matches!(&notices[1], ShellNotice::SettingsUpdated(p) if p == "audio.mute"));
    assert!(matches!(&notices[2], ShellNotice::WriteSram(n, d) if n == "game.sav" && d == &vec![1, 2]));
    assert!(w.take_notices().is_empty());
}

#[test]
fn worker_closes_on_request() {
    let mut w = Worker::new(board(0), loud_noise());
    assert!(!w.exit_requested());
    w.dispatch_event(Event::CloseApplication);
    assert!(w.exit_requested());
    w.dispatch_event(Event::CartridgeLoaded("game".to_string()));
    assert!(matches!(w.take_notices()[0], ShellNotice::HasSram(false)));
}

#[test]
fn scanline_makes_one_sample() {
    let mut w = Worker::new(board(0), loud_noise());
    let out = w.step_scanline();
    assert_eq!(out.samples.len(), 1);
    assert!(!out.frame_complete);
    assert_eq!(w.scanline(), 1);
    assert_eq!(w.noise().period_current, 0);
    assert!(out.samples[0] == 0 || out.samples[0] == 15 * 512);
}

#[test]
fn frame_sequencer_ticks() {
    let mut w = Worker::new(board(0), loud_noise());
    for _ in 0..130 {
        w.step_scanline();
    }
    // reaching scanline 130 raises a half-frame tick: the length counter steps
    assert_eq!(w.scanline(), 130);
    assert_eq!(w.noise().length_counter.length, 199);
    let mut frames = 0;
    for _ in 0..(262 - 130) {
        if w.step_scanline().frame_complete {
            frames += 1;
        }
    }
    assert_eq!(w.scanline(), 0);
    assert_eq!(frames, 1);
    assert_eq!(w.noise().length_counter.length, 198);
}

#[test]
fn muted_channel_mixes_silence() {
    let mut noise = loud_noise();
    noise.mute();
    let mut w = Worker::new(board(0), noise);
    for _ in 0..50 {
        assert_eq!(w.step_scanline().samples, vec![0]);
    }
}

#[test]
fn pacing_full_queue_runs_nothing() {
    let mut w = Worker::new(board(0), loud_noise());
    let mut queue = vec![0i16; LOW_WATER_MARK];
    let report = w.step_emulator(&mut queue);
    assert_eq!(report.scanlines, 0);
    assert_eq!(queue.len(), LOW_WATER_MARK);
    assert_eq!(w.scanline(), 0);
    assert!(!should_step(LOW_WATER_MARK));
}

#[test]
fn pacing_empty_queue_fills_to_mark() {
    let mut w = Worker::new(board(0), loud_noise());
    let mut queue: Vec<i16> = Vec::new();
    assert!(should_step(0));
    let report = w.step_emulator(&mut queue);
    assert!(report.scanlines >= 1);
    assert_eq!(queue.len(), LOW_WATER_MARK);
    assert_eq!(report.scanlines, LOW_WATER_MARK);
    assert!(report.frame_complete);
}

#[test]
fn pacing_appends_scanline_samples_in_order() {
    let mut paced = Worker::new(board(0), loud_noise());
    let mut stepped = Worker::new(board(0), loud_noise());
    let mut queue: Vec<i16> = vec![7; LOW_WATER_MARK - 3];
    let report = paced.step_emulator(&mut queue);
    assert_eq!(report.scanlines, 3);
    assert!(!report.frame_complete);
    let mut expected: Vec<i16> = vec![7; LOW_WATER_MARK - 3];
    for _ in 0..3 {
        expected.extend(stepped.step_scanline().samples);
    }
    assert_eq!(queue, expected);
    assert_eq!(paced.scanline(), stepped.scanline());
    assert_eq!(paced.noise().shift_register, stepped.noise().shift_register);
}

#[test]
fn worker_own_handler_leaves_machine_alone() {
    let mut w = Worker::new(board(0), loud_noise());
    for _ in 0..64 {
        w.step_scanline();
    }
    let shift = w.noise().shift_register;
    assert!(w.handle_event(Event::NesRunScanline).is_empty());
    assert!(w.handle_event(Event::ApuHalfFrame).is_empty());
    assert_eq!(w.scanline(), 64);
    assert_eq!(w.noise().shift_register, shift);
    assert_eq!(w.noise().length_counter.length, 200);
    assert!(w.take_notices().is_empty());
    assert!(!w.exit_requested());
    assert!(w.handle_event(Event::CloseApplication).is_empty());
    assert!(w.exit_requested());
    assert!(w.handle_event(Event::CloseApplication).is_empty());
    assert!(w.exit_requested());
}

#[test]
fn machine_raises_frame_ticks() {
    let mut m = Machine::new(board(0), loud_noise());
    for _ in 0..64 {
        assert!(m.react(&Event::NesRunScanline).is_empty());
    }
    let ticks = m.react(&Event::NesRunScanline);
    assert_eq!(ticks.len(), 1);
    assert!(matches!(ticks[0], Event::ApuQuarterFrame));
    assert_eq!(m.scanline(), 65);
    assert!(m.react(&Event::CloseApplication).is_empty());
    assert!(m.react(&Event::CartridgeLoaded("game".to_string())).is_empty());
    assert_eq!(m.take_samples().len(), 65);
}
