use nes_core::palette::{default_channel_colors, Color};

#[test]
fn default_palette_layout() {
    let palette = default_channel_colors();
    let chips: Vec<&str> = palette.iter().map(|c| c.chip.as_str()).collect();
    assert_eq!(chips, vec!["2A03", "VRC6", "MMC5", "YM2149F", "N163"]);
    let apu = &palette[0];
    let names: Vec<&str> = apu.channels.iter().map(|c| c.channel.as_str()).collect();
    assert_eq!(names, vec!["Pulse 1", "Pulse 2", "Triangle", "Noise", "DMC"]);
    assert_eq!(apu.channels[0].colors.len(), 4);
    assert_eq!(apu.channels[0].colors[1], Color::rgb(0xFF, 0x40, 0xFF));
    assert_eq!(apu.channels[0].colors[3], apu.channels[0].colors[1]);
    assert_eq!(apu.channels[3].colors, vec![Color::rgb(192, 192, 192), Color::rgb(128, 240, 255)]);
    assert_eq!(palette[1].channels[2].colors[0], Color::rgb(0x07, 0x7d, 0x5a));
    assert_eq!(palette[4].channels.len(), 8);
    assert_eq!(palette[4].channels[7].channel, "NAMCO 8");
    assert_eq!(palette[4].channels[7].colors[1], Color { r: 0xc9, g: 0x9c, b: 0x9c, alpha: 255 });
}
