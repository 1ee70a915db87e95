use vstd::prelude::*;

verus! {

/// An opaque RGBA colour.
#[derive(Clone, Copy, Debug, PartialEq, Eq, Structural)]
pub struct Color {
    pub r: u8,
    pub g: u8,
    pub b: u8,
    pub alpha: u8,
}

pub open spec fn rgb_value(r: u8, g: u8, b: u8) -> Color {
    Color { r, g, b, alpha: 255 }
}

impl Color {
    pub fn rgb(r: u8, g: u8, b: u8) -> (c: Color)
        ensures
            c == rgb_value(r, g, b),
    {
        Color { r, g, b, alpha: 255 }
    }
}

/// The colours that one channel is drawn in.
pub struct ChannelColors {
    pub channel: String,
    pub colors: Vec<Color>,
}

/// The channel colours of one sound chip.
pub struct ChipColors {
    pub chip: String,
    pub channels: Vec<ChannelColors>,
}

pub open spec fn channels_view(s: Seq<ChannelColors>) -> Seq<(Seq<char>, Seq<Color>)> {
    s.map_values(|c: ChannelColors| (c.channel@, c.colors@))
}

pub open spec fn palette_view(s: Seq<ChipColors>) -> Seq<(Seq<char>, Seq<(Seq<char>, Seq<Color>)>)> {
    s.map_values(|c: ChipColors| (c.chip@, channels_view(c.channels@)))
}

/// The default colours of the 2A03 channels.
pub open spec fn apu_palette() -> Seq<(Seq<char>, Seq<Color>)> {
    seq![
        (
            "Pulse 1"@,
            seq![
                rgb_value(255, 160, 160),
                rgb_value(255, 64, 255),
                rgb_value(255, 64, 64),
                rgb_value(255, 64, 255),
            ],
        ),
        (
            "Pulse 2"@,
            seq![
                rgb_value(255, 224, 160),
                rgb_value(255, 192, 64),
                rgb_value(255, 255, 64),
                rgb_value(255, 192, 64),
            ],
        ),
        ("Triangle"@, seq![rgb_value(64, 255, 64)]),
        ("Noise"@, seq![rgb_value(192, 192, 192), rgb_value(128, 240, 255)]),
        ("DMC"@, seq![rgb_value(96, 32, 192)]),
    ]
}

/// The default colours of the VRC6 channels.
pub open spec fn vrc6_palette() -> Seq<(Seq<char>, Seq<Color>)> {
    seq![
        (
            "Pulse 1"@,
            seq![
                rgb_value(242, 187, 216),
                rgb_value(219, 160, 191),
                rgb_value(196, 134, 166),
                rgb_value(173, 108, 141),
                rgb_value(151, 81, 116),
                rgb_value(128, 55, 91),
                rgb_value(105, 29, 66),
                rgb_value(83, 3, 42),
            ],
        ),
        (
            "Pulse 2"@,
            seq![
                rgb_value(232, 167, 231),
                rgb_value(210, 143, 209),
                rgb_value(189, 120, 187),
                rgb_value(167, 96, 166),
                rgb_value(146, 73, 144),
                rgb_value(124, 49, 123),
                rgb_value(103, 26, 101),
                rgb_value(82, 3, 80),
            ],
        ),
        ("Sawtooth"@, seq![rgb_value(7, 125, 90), rgb_value(159, 184, 237)]),
    ]
}

/// The default colours of the MMC5 channels.
pub open spec fn mmc5_palette() -> Seq<(Seq<char>, Seq<Color>)> {
    seq![
        ("Pulse 1"@, seq![rgb_value(224, 24, 64)]),
        ("Pulse 2"@, seq![rgb_value(180, 12, 40)]),
        ("PCM"@, seq![rgb_value(224, 24, 64)]),
    ]
}

/// The default colours of the YM2149F channels.
pub open spec fn s5b_palette() -> Seq<(Seq<char>, Seq<Color>)> {
    seq![
        ("A"@, seq![rgb_value(32, 144, 204)]),
        ("B"@, seq![rgb_value(24, 104, 228)]),
        ("C"@, seq![rgb_value(16, 64, 248)]),
    ]
}

/// The default colours of the N163 channels.
pub open spec fn n163_palette() -> Seq<(Seq<char>, Seq<Color>)> {
    seq![
        ("NAMCO 1"@, seq![rgb_value(102, 14, 14), rgb_value(201, 156, 156)]),
        ("NAMCO 2"@, seq![rgb_value(102, 14, 14), rgb_value(201, 156, 156)]),
        ("NAMCO 3"@, seq![rgb_value(102, 14, 14), rgb_value(201, 156, 156)]),
        ("NAMCO 4"@, seq![rgb_value(102, 14, 14), rgb_value(201, 156, 156)]),
        ("NAMCO 5"@, seq![rgb_value(102, 14, 14), rgb_value(201, 156, 156)]),
        ("NAMCO 6"@, seq![rgb_value(102, 14, 14), rgb_value(201, 156, 156)]),
        ("NAMCO 7"@, seq![rgb_value(102, 14, 14), rgb_value(201, 156, 156)]),
        ("NAMCO 8"@, seq![rgb_value(102, 14, 14), rgb_value(201, 156, 156)]),
    ]
}

/// The default colours, by chip and then by channel, in a fixed order.
pub open spec fn default_palette() -> Seq<(Seq<char>, Seq<(Seq<char>, Seq<Color>)>)> {
    seq![
        ("2A03"@, apu_palette()),
        ("VRC6"@, vrc6_palette()),
        ("MMC5"@, mmc5_palette()),
        ("YM2149F"@, s5b_palette()),
        ("N163"@, n163_palette()),
    ]
}

fn apu_colors() -> (r: Vec<ChannelColors>)
    ensures
        channels_view(r@) == apu_palette(),
{
    let mut r: Vec<ChannelColors> = Vec::new();
    let mut colors: Vec<Color> = Vec::new();
    colors.push(Color::rgb(255, 160, 160));
    colors.push(Color::rgb(255, 64, 255));
    colors.push(Color::rgb(255, 64, 64));
    colors.push(Color::rgb(255, 64, 255));
    assert(colors@ =~= seq![
        rgb_value(255, 160, 160),
        rgb_value(255, 64, 255),
        rgb_value(255, 64, 64),
        rgb_value(255, 64, 255),
    ]);
    r.push(ChannelColors { channel: String::from_str("Pulse 1"), colors });
    let mut colors: Vec<Color> = Vec::new();
    colors.push(Color::rgb(255, 224, 160));
    colors.push(Color::rgb(255, 192, 64));
    colors.push(Color::rgb(255, 255, 64));
    colors.push(Color::rgb(255, 192, 64));
    assert(colors@ =~= seq![
        rgb_value(255, 224, 160),
        rgb_value(255, 192, 64),
        rgb_value(255, 255, 64),
        rgb_value(255, 192, 64),
    ]);
    r.push(ChannelColors { channel: String::from_str("Pulse 2"), colors });
    let mut colors: Vec<Color> = Vec::new();
    colors.push(Color::rgb(64, 255, 64));
    assert(colors@ =~= seq![rgb_value(64, 255, 64)]);
    r.push(ChannelColors { channel: String::from_str("Triangle"), colors });
    let mut colors: Vec<Color> = Vec::new();
    colors.push(Color::rgb(192, 192, 192));
    colors.push(Color::rgb(128, 240, 255));
    assert(colors@ =~= seq![rgb_value(192, 192, 192), rgb_value(128, 240, 255)]);
    r.push(ChannelColors { channel: String::from_str("Noise"), colors });
    let mut colors: Vec<Color> = Vec::new();
    colors.push(Color::rgb(96, 32, 192));
    assert(colors@ =~= seq![rgb_value(96, 32, 192)]);
    r.push(ChannelColors { channel: String::from_str("DMC"), colors });
    assert(channels_view(r@) =~= apu_palette());
    r
}

fn vrc6_colors() -> (r: Vec<ChannelColors>)
    ensures
        channels_view(r@) == vrc6_palette(),
{
    let mut r: Vec<ChannelColors> = Vec::new();
    let mut colors: Vec<Color> = Vec::new();
    colors.push(Color::rgb(242, 187, 216));
    colors.push(Color::rgb(219, 160, 191));
    colors.push(Color::rgb(196, 134, 166));
    colors.push(Color::rgb(173, 108, 141));
    colors.push(Color::rgb(151, 81, 116));
    colors.push(Color::rgb(128, 55, 91));
    colors.push(Color::rgb(105, 29, 66));
    colors.push(Color::rgb(83, 3, 42));
    assert(colors@ =~= seq![
        rgb_value(242, 187, 216),
        rgb_value(219, 160, 191),
        rgb_value(196, 134, 166),
        rgb_value(173, 108, 141),
        rgb_value(151, 81, 116),
        rgb_value(128, 55, 91),
        rgb_value(105, 29, 66),
        rgb_value(83, 3, 42),
    ]);
    r.push(ChannelColors { channel: String::from_str("Pulse 1"), colors });
    let mut colors: Vec<Color> = Vec::new();
    colors.push(Color::rgb(232, 167, 231));
    colors.push(Color::rgb(210, 143, 209));
    colors.push(Color::rgb(189, 120, 187));
    colors.push(Color::rgb(167, 96, 166));
    colors.push(Color::rgb(146, 73, 144));
    colors.push(Color::rgb(124, 49, 123));
    colors.push(Color::rgb(103, 26, 101));
    colors.push(Color::rgb(82, 3, 80));
    assert(colors@ =~= seq![
        rgb_value(232, 167, 231),
        rgb_value(210, 143, 209),
        rgb_value(189, 120, 187),
        rgb_value(167, 96, 166),
        rgb_value(146, 73, 144),
        rgb_value(124, 49, 123),
        rgb_value(103, 26, 101),
        rgb_value(82, 3, 80),
    ]);
    r.push(ChannelColors { channel: String::from_str("Pulse 2"), colors });
    let mut colors: Vec<Color> = Vec::new();
    colors.push(Color::rgb(7, 125, 90));
    colors.push(Color::rgb(159, 184, 237));
    assert(colors@ =~= seq![rgb_value(7, 125, 90), rgb_value(159, 184, 237)]);
    r.push(ChannelColors { channel: String::from_str("Sawtooth"), colors });
    assert(channels_view(r@) =~= vrc6_palette());
    r
}

fn mmc5_colors() -> (r: Vec<ChannelColors>)
    ensures
        channels_view(r@) == mmc5_palette(),
{
    let mut r: Vec<ChannelColors> = Vec::new();
    let mut colors: Vec<Color> = Vec::new();
    colors.push(Color::rgb(224, 24, 64));
    assert(colors@ =~= seq![rgb_value(224, 24, 64)]);
    r.push(ChannelColors { channel: String::from_str("Pulse 1"), colors });
    let mut colors: Vec<Color> = Vec::new();
    colors.push(Color::rgb(180, 12, 40));
    assert(colors@ =~= seq![rgb_value(180, 12, 40)]);
    r.push(ChannelColors { channel: String::from_str("Pulse 2"), colors });
    let mut colors: Vec<Color> = Vec::new();
    colors.push(Color::rgb(224, 24, 64));
    assert(colors@ =~= seq![rgb_value(224, 24, 64)]);
    r.push(ChannelColors { channel: String::from_str("PCM"), colors });
    assert(channels_view(r@) =~= mmc5_palette());
    r
}

fn s5b_colors() -> (r: Vec<ChannelColors>)
    ensures
        channels_view(r@) == s5b_palette(),
{
    let mut r: Vec<ChannelColors> = Vec::new();
    let mut colors: Vec<Color> = Vec::new();
    colors.push(Color::rgb(32, 144, 204));
    assert(colors@ =~= seq![rgb_value(32, 144, 204)]);
    r.push(ChannelColors { channel: String::from_str("A"), colors });
    let mut colors: Vec<Color> = Vec::new();
    colors.push(Color::rgb(24, 104, 228));
    assert(colors@ =~= seq![rgb_value(24, 104, 228)]);
    r.push(ChannelColors { channel: String::from_str("B"), colors });
    let mut colors: Vec<Color> = Vec::new();
    colors.push(Color::rgb(16, 64, 248));
    assert(colors@ =~= seq![rgb_value(16, 64, 248)]);
    r.push(ChannelColors { channel: String::from_str("C"), colors });
    assert(channels_view(r@) =~= s5b_palette());
    r
}

fn n163_colors() -> (r: Vec<ChannelColors>)
    ensures
        channels_view(r@) == n163_palette(),
{
    let mut r: Vec<ChannelColors> = Vec::new();
    let mut colors: Vec<Color> = Vec::new();
    colors.push(Color::rgb(102, 14, 14));
    colors.push(Color::rgb(201, 156, 156));
    assert(colors@ =~= seq![rgb_value(102, 14, 14), rgb_value(201, 156, 156)]);
    r.push(ChannelColors { channel: String::from_str("NAMCO 1"), colors });
    let mut colors: Vec<Color> = Vec::new();
    colors.push(Color::rgb(102, 14, 14));
    colors.push(Color::rgb(201, 156, 156));
    assert(colors@ =~= seq![rgb_value(102, 14, 14), rgb_value(201, 156, 156)]);
    r.push(ChannelColors { channel: String::from_str("NAMCO 2"), colors });
    let mut colors: Vec<Color> = Vec::new();
    colors.push(Color::rgb(102, 14, 14));
    colors.push(Color::rgb(201, 156, 156));
    assert(colors@ =~= seq![rgb_value(102, 14, 14), rgb_value(201, 156, 156)]);
    r.push(ChannelColors { channel: String::from_str("NAMCO 3"), colors });
    let mut colors: Vec<Color> = Vec::new();
    colors.push(Color::rgb(102, 14, 14));
    colors.push(Color::rgb(201, 156, 156));
    assert(colors@ =~= seq![rgb_value(102, 14, 14), rgb_value(201, 156, 156)]);
    r.push(ChannelColors { channel: String::from_str("NAMCO 4"), colors });
    let mut colors: Vec<Color> = Vec::new();
    colors.push(Color::rgb(102, 14, 14));
    colors.push(Color::rgb(201, 156, 156));
    assert(colors@ =~= seq![rgb_value(102, 14, 14), rgb_value(201, 156, 156)]);
    r.push(ChannelColors { channel: String::from_str("NAMCO 5"), colors });
    let mut colors: Vec<Color> = Vec::new();
    colors.push(Color::rgb(102, 14, 14));
    colors.push(Color::rgb(201, 156, 156));
    assert(colors@ =~= seq![rgb_value(102, 14, 14), rgb_value(201, 156, 156)]);
    r.push(ChannelColors { channel: String::from_str("NAMCO 6"), colors });
    let mut colors: Vec<Color> = Vec::new();
    colors.push(Color::rgb(102, 14, 14));
    colors.push(Color::rgb(201, 156, 156));
    assert(colors@ =~= seq![rgb_value(102, 14, 14), rgb_value(201, 156, 156)]);
    r.push(ChannelColors { channel: String::from_str("NAMCO 7"), colors });
    let mut colors: Vec<Color> = Vec::new();
    colors.push(Color::rgb(102, 14, 14));
    colors.push(Color::rgb(201, 156, 156));
    assert(colors@ =~= seq![rgb_value(102, 14, 14), rgb_value(201, 156, 156)]);
    r.push(ChannelColors { channel: String::from_str("NAMCO 8"), colors });
    assert(channels_view(r@) =~= n163_palette());
    r
}

/// The default colour of every channel of every supported sound chip.
pub fn default_channel_colors() -> (r: Vec<ChipColors>)
    ensures
        palette_view(r@) == default_palette(),
{
    let mut r: Vec<ChipColors> = Vec::new();
    r.push(ChipColors { chip: String::from_str("2A03"), channels: apu_colors() });
    r.push(ChipColors { chip: String::from_str("VRC6"), channels: vrc6_colors() });
    r.push(ChipColors { chip: String::from_str("MMC5"), channels: mmc5_colors() });
    r.push(ChipColors { chip: String::from_str("YM2149F"), channels: s5b_colors() });
    r.push(ChipColors { chip: String::from_str("N163"), channels: n163_colors() });
    assert(palette_view(r@) =~= default_palette());
    r
}

} // verus!
