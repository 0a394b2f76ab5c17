//! Runtime configuration: effect modes, sound modes, the configuration
//! sections, the LED layout file, and where the files live.
//!
//! Values that the original keeps as `f32` (brightness, speed, warmth,
//! reactivity, sensitivity) are carried here as their IEEE-754 bit patterns
//! (`f32::to_bits`); this library never interprets them.

use vstd::prelude::*;
use crate::text::{
    decimal, first_existing, join_path, owned, push_decimal, push_str, spec_first_existing, spec_join, str_eq,
};
use vstd::string::StrSliceExecFns;

verus! {

/// Default serial device.
pub const DEFAULT_PORT: &'static str = "/dev/ttyUSB0";
/// Default serial speed.
pub const DEFAULT_BAUD: u32 = 115_200;
/// Number of LEDs on the Skydimo strip.
pub const DEFAULT_LEDS: u8 = 65;
/// Default frame rate.
pub const DEFAULT_FPS: u32 = 30;
/// Bit pattern of the default brightness `0.8f32`.
pub const DEFAULT_BRIGHTNESS_BITS: u32 = 0x3F4C_CCCD;
/// Bit pattern of the default animation speed `1.0f32`.
pub const DEFAULT_SPEED_BITS: u32 = 0x3F80_0000;
/// Bit pattern of the default candle warmth `0.9f32`.
pub const DEFAULT_WARMTH_BITS: u32 = 0x3F66_6666;
/// Bit pattern of the default audio reactivity and sensitivity `0.3f32`.
pub const DEFAULT_AUDIO_BITS: u32 = 0x3E99_999A;

/// What the strip shows.
#[derive(Debug, Clone, Copy, PartialEq, Eq, Structural)]
pub enum EffectMode {
    Off,
    Solid,
    Candle,
    Chase,
    Wave,
    Rainbow,
    Scanner,
    Sparkle,
    Pulse,
    Aurora,
    Fire,
    Heartbeat,
    Segment,
    Strobe,
    Wipe,
    SoundViz,
    Screen,
    ScreenCenter,
}

/// The name of each mode, as written in the configuration file and sent
/// over IPC.
pub open spec fn mode_name(m: EffectMode) -> Seq<char> {
    match m {
        EffectMode::Off => seq!['o', 'f', 'f'],
        EffectMode::Solid => seq!['s', 'o', 'l', 'i', 'd'],
        EffectMode::Candle => seq!['c', 'a', 'n', 'd', 'l', 'e'],
        EffectMode::Chase => seq!['c', 'h', 'a', 's', 'e'],
        EffectMode::Wave => seq!['w', 'a', 'v', 'e'],
        EffectMode::Rainbow => seq!['r', 'a', 'i', 'n', 'b', 'o', 'w'],
        EffectMode::Scanner => seq!['s', 'c', 'a', 'n', 'n', 'e', 'r'],
        EffectMode::Sparkle => seq!['s', 'p', 'a', 'r', 'k', 'l', 'e'],
        EffectMode::Pulse => seq!['p', 'u', 'l', 's', 'e'],
        EffectMode::Aurora => seq!['a', 'u', 'r', 'o', 'r', 'a'],
        EffectMode::Fire => seq!['f', 'i', 'r', 'e'],
        EffectMode::Heartbeat => seq!['h', 'e', 'a', 'r', 't', 'b', 'e', 'a', 't'],
        EffectMode::Segment => seq!['s', 'e', 'g', 'm', 'e', 'n', 't'],
        EffectMode::Strobe => seq!['s', 't', 'r', 'o', 'b', 'e'],
        EffectMode::Wipe => seq!['w', 'i', 'p', 'e'],
        EffectMode::SoundViz => seq!['s', 'o', 'u', 'n', 'd', '_', 'v', 'i', 'z'],
        EffectMode::Screen => seq!['s', 'c', 'r', 'e', 'e', 'n'],
        EffectMode::ScreenCenter => seq![
            's', 'c', 'r', 'e', 'e', 'n', '_', 'c', 'e', 'n', 't', 'e', 'r',
        ],
    }
}

impl EffectMode {
    /// The mode's name; see [`mode_name`].
    pub fn as_str(self) -> (r: &'static str)
        ensures
            r@ == mode_name(self),
    {
        match self {
            EffectMode::Off => {
                proof { reveal_strlit("off"); }
                "off"
            },
            EffectMode::Solid => {
                proof { reveal_strlit("solid"); }
                "solid"
            },
            EffectMode::Candle => {
                proof { reveal_strlit("candle"); }
                "candle"
            },
            EffectMode::Chase => {
                proof { reveal_strlit("chase"); }
                "chase"
            },
            EffectMode::Wave => {
                proof { reveal_strlit("wave"); }
                "wave"
            },
            EffectMode::Rainbow => {
                proof { reveal_strlit("rainbow"); }
                "rainbow"
            },
            EffectMode::Scanner => {
                proof { reveal_strlit("scanner"); }
                "scanner"
            },
            EffectMode::Sparkle => {
                proof { reveal_strlit("sparkle"); }
                "sparkle"
            },
            EffectMode::Pulse => {
                proof { reveal_strlit("pulse"); }
                "pulse"
            },
            EffectMode::Aurora => {
                proof { reveal_strlit("aurora"); }
                "aurora"
            },
            EffectMode::Fire => {
                proof { reveal_strlit("fire"); }
                "fire"
            },
            EffectMode::Heartbeat => {
                proof { reveal_strlit("heartbeat"); }
                "heartbeat"
            },
            EffectMode::Segment => {
                proof { reveal_strlit("segment"); }
                "segment"
            },
            EffectMode::Strobe => {
                proof { reveal_strlit("strobe"); }
                "strobe"
            },
            EffectMode::Wipe => {
                proof { reveal_strlit("wipe"); }
                "wipe"
            },
            EffectMode::SoundViz => {
                proof { reveal_strlit("sound_viz"); }
                "sound_viz"
            },
            EffectMode::Screen => {
                proof { reveal_strlit("screen"); }
                "screen"
            },
            EffectMode::ScreenCenter => {
                proof { reveal_strlit("screen_center"); }
                "screen_center"
            },
        }
    }

    /// Whether the mode mirrors the screen (edges or centre).
    pub fn is_screen(self) -> (r: bool)
        ensures
            r == (self == EffectMode::Screen || self == EffectMode::ScreenCenter),
    {
        matches!(self, EffectMode::Screen | EffectMode::ScreenCenter)
    }
}


/// The modes that can be asked for by name (`rainbow` is requested as the
/// solid mode with the rainbow colour, never as a mode of its own).
pub open spec fn parseable_mode(m: EffectMode) -> bool {
    m != EffectMode::Rainbow
}

/// The mode that the name `s` asks for.
pub open spec fn spec_parse_mode(s: Seq<char>) -> Option<EffectMode> {
    if exists|m: EffectMode| parseable_mode(m) && mode_name(m) == s {
        Some(choose|m: EffectMode| parseable_mode(m) && mode_name(m) == s)
    } else {
        None
    }
}

/// Length and first two characters of a name; no two modes share them.
spec fn name_key(s: Seq<char>) -> (nat, char, char) {
    (s.len(), s[0], s[1])
}

spec fn mode_of_key(k: (nat, char, char)) -> EffectMode {
    if k == (3nat, 'o', 'f') { EffectMode::Off }
    else if k == (5nat, 's', 'o') { EffectMode::Solid }
    else if k == (6nat, 'c', 'a') { EffectMode::Candle }
    else if k == (5nat, 'c', 'h') { EffectMode::Chase }
    else if k == (4nat, 'w', 'a') { EffectMode::Wave }
    else if k == (7nat, 'r', 'a') { EffectMode::Rainbow }
    else if k == (7nat, 's', 'c') { EffectMode::Scanner }
    else if k == (7nat, 's', 'p') { EffectMode::Sparkle }
    else if k == (5nat, 'p', 'u') { EffectMode::Pulse }
    else if k == (6nat, 'a', 'u') { EffectMode::Aurora }
    else if k == (4nat, 'f', 'i') { EffectMode::Fire }
    else if k == (9nat, 'h', 'e') { EffectMode::Heartbeat }
    else if k == (7nat, 's', 'e') { EffectMode::Segment }
    else if k == (6nat, 's', 't') { EffectMode::Strobe }
    else if k == (4nat, 'w', 'i') { EffectMode::Wipe }
    else if k == (9nat, 's', 'o') { EffectMode::SoundViz }
    else if k == (6nat, 's', 'c') { EffectMode::Screen }
    else { EffectMode::ScreenCenter }
}

proof fn lemma_mode_key(m: EffectMode)
    ensures
        mode_of_key(name_key(mode_name(m))) == m,
{
}

/// Different modes have different names.
pub proof fn lemma_mode_name_injective(a: EffectMode, b: EffectMode)
    ensures
        mode_name(a) == mode_name(b) <==> a == b,
{
    lemma_mode_key(a);
    lemma_mode_key(b);
}

/// Reading a mode's own name back gives the mode, for every mode that can be
/// asked for by name.
pub proof fn lemma_parse_mode_roundtrip(m: EffectMode)
    requires
        parseable_mode(m),
    ensures
        spec_parse_mode(mode_name(m)) == Some(m),
{
    let c = choose|x: EffectMode| parseable_mode(x) && mode_name(x) == mode_name(m);
    lemma_mode_name_injective(c, m);
}

/// Why a configuration value was refused.
#[derive(Debug)]
pub enum ConfigError {
    /// Not the name of a mode that can be asked for.
    UnknownMode(String),
    /// Not the name of a sound mode.
    UnknownSoundMode(String),
}

/// The mode named `s`, or the name back as an error.
pub fn parse_mode(s: &str) -> (r: Result<EffectMode, ConfigError>)
    ensures
        match spec_parse_mode(s@) {
            Some(m) => r == Ok::<EffectMode, ConfigError>(m),
            None => r matches Err(ConfigError::UnknownMode(t)) && t@ == s@,
        },
{
    let modes = [
        EffectMode::Off,
        EffectMode::Solid,
        EffectMode::Candle,
        EffectMode::Chase,
        EffectMode::Wave,
        EffectMode::Scanner,
        EffectMode::Sparkle,
        EffectMode::Pulse,
        EffectMode::Aurora,
        EffectMode::Fire,
        EffectMode::Heartbeat,
        EffectMode::Segment,
        EffectMode::Strobe,
        EffectMode::Wipe,
        EffectMode::SoundViz,
        EffectMode::Screen,
        EffectMode::ScreenCenter,
    ];
    assert forall|m: EffectMode| parseable_mode(m) implies modes@.contains(m) by {
        match m {
            EffectMode::Off => assert(modes@[0] == m),
            EffectMode::Solid => assert(modes@[1] == m),
            EffectMode::Candle => assert(modes@[2] == m),
            EffectMode::Chase => assert(modes@[3] == m),
            EffectMode::Wave => assert(modes@[4] == m),
            EffectMode::Rainbow => {},
            EffectMode::Scanner => assert(modes@[5] == m),
            EffectMode::Sparkle => assert(modes@[6] == m),
            EffectMode::Pulse => assert(modes@[7] == m),
            EffectMode::Aurora => assert(modes@[8] == m),
            EffectMode::Fire => assert(modes@[9] == m),
            EffectMode::Heartbeat => assert(modes@[10] == m),
            EffectMode::Segment => assert(modes@[11] == m),
            EffectMode::Strobe => assert(modes@[12] == m),
            EffectMode::Wipe => assert(modes@[13] == m),
            EffectMode::SoundViz => assert(modes@[14] == m),
            EffectMode::Screen => assert(modes@[15] == m),
            EffectMode::ScreenCenter => assert(modes@[16] == m),
        }
    }
    let mut i: usize = 0;
    while i < 17
        invariant
            i <= 17,
            modes@.len() == 17,
            forall|k: int| 0 <= k < 17 ==> parseable_mode(#[trigger] modes@[k]),
            forall|m: EffectMode| parseable_mode(m) ==> modes@.contains(m),
            forall|k: int| 0 <= k < i ==> mode_name(#[trigger] modes@[k]) != s@,
        decreases 17 - i,
    {
        let m = modes[i];
        if str_eq(s, m.as_str()) {
            proof {
                lemma_parse_mode_roundtrip(m);
            }
            return Ok(m);
        }
        i += 1;
    }
    assert forall|m: EffectMode| !(parseable_mode(m) && mode_name(m) == s@) by {
        if parseable_mode(m) {
            let k = choose|k: int| 0 <= k < modes@.len() && modes@[k] == m;
            assert(mode_name(modes@[k]) != s@);
        }
    }
    Err(ConfigError::UnknownMode(owned(s)))
}

/// How audio modulates the strip.
#[derive(Debug, Clone, Copy, PartialEq, Eq, Structural)]
pub enum SoundMode {
    Off,
    Level,
    Balance,
}

/// The name of each sound mode.
pub open spec fn sound_mode_name(m: SoundMode) -> Seq<char> {
    match m {
        SoundMode::Off => seq!['o', 'f', 'f'],
        SoundMode::Level => seq!['l', 'e', 'v', 'e', 'l'],
        SoundMode::Balance => seq!['b', 'a', 'l', 'a', 'n', 'c', 'e'],
    }
}

/// The sound mode named `s`.
pub open spec fn spec_parse_sound_mode(s: Seq<char>) -> Option<SoundMode> {
    if s == sound_mode_name(SoundMode::Off) {
        Some(SoundMode::Off)
    } else if s == sound_mode_name(SoundMode::Level) {
        Some(SoundMode::Level)
    } else if s == sound_mode_name(SoundMode::Balance) {
        Some(SoundMode::Balance)
    } else {
        None
    }
}

impl SoundMode {
    /// The sound mode's name.
    pub fn as_str(self) -> (r: &'static str)
        ensures
            r@ == sound_mode_name(self),
    {
        match self {
            SoundMode::Off => {
                proof { reveal_strlit("off"); }
                "off"
            },
            SoundMode::Level => {
                proof { reveal_strlit("level"); }
                "level"
            },
            SoundMode::Balance => {
                proof { reveal_strlit("balance"); }
                "balance"
            },
        }
    }
}

/// Reading a sound mode's own name back gives the sound mode.
pub proof fn lemma_parse_sound_mode_roundtrip(m: SoundMode)
    ensures
        spec_parse_sound_mode(sound_mode_name(m)) == Some(m),
{
}

/// The sound mode named `s`, or the name back as an error.
pub fn parse_sound_mode(s: &str) -> (r: Result<SoundMode, ConfigError>)
    ensures
        match spec_parse_sound_mode(s@) {
            Some(m) => r == Ok::<SoundMode, ConfigError>(m),
            None => r matches Err(ConfigError::UnknownSoundMode(t)) && t@ == s@,
        },
{
    if str_eq(s, SoundMode::Off.as_str()) {
        Ok(SoundMode::Off)
    } else if str_eq(s, SoundMode::Level.as_str()) {
        Ok(SoundMode::Level)
    } else if str_eq(s, SoundMode::Balance.as_str()) {
        Ok(SoundMode::Balance)
    } else {
        Err(ConfigError::UnknownSoundMode(owned(s)))
    }
}


/// Characters of the default serial device `/dev/ttyUSB0`.
pub open spec fn default_port_chars() -> Seq<char> {
    seq!['/', 'd', 'e', 'v', '/', 't', 't', 'y', 'U', 'S', 'B', '0']
}

/// Characters of the default accent colour `ff3300`.
pub open spec fn default_color_chars() -> Seq<char> {
    seq!['f', 'f', '3', '3', '0', '0']
}

/// Characters of the default layout file `config/layout.toml`.
pub open spec fn default_layout_chars() -> Seq<char> {
    seq!['c', 'o', 'n', 'f', 'i', 'g', '/', 'l', 'a', 'y', 'o', 'u', 't', '.', 't', 'o', 'm', 'l']
}

/// Characters of the default layout origin `bottom_right`.
pub open spec fn default_origin_chars() -> Seq<char> {
    seq!['b', 'o', 't', 't', 'o', 'm', '_', 'r', 'i', 'g', 'h', 't']
}

/// Characters of the default layout direction `counter_clockwise`.
pub open spec fn default_direction_chars() -> Seq<char> {
    seq!['c', 'o', 'u', 'n', 't', 'e', 'r', '_', 'c', 'l', 'o', 'c', 'k', 'w', 'i', 's', 'e']
}

/// Default serial device.
pub fn default_port() -> (r: String)
    ensures
        r@ == default_port_chars(),
{
    proof { reveal_strlit("/dev/ttyUSB0"); }
    owned("/dev/ttyUSB0")
}

/// Default LED count.
pub fn default_leds() -> (r: u8)
    ensures
        r == DEFAULT_LEDS,
{
    DEFAULT_LEDS
}

/// Default frame rate.
pub fn default_fps() -> (r: u32)
    ensures
        r == DEFAULT_FPS,
{
    DEFAULT_FPS
}

/// Default accent colour.
pub fn default_color() -> (r: String)
    ensures
        r@ == default_color_chars(),
{
    proof { reveal_strlit("ff3300"); }
    owned("ff3300")
}

/// Default layout file.
pub fn default_layout() -> (r: String)
    ensures
        r@ == default_layout_chars(),
{
    proof { reveal_strlit("config/layout.toml"); }
    owned("config/layout.toml")
}

/// Default corner where the strip starts.
pub fn default_origin() -> (r: String)
    ensures
        r@ == default_origin_chars(),
{
    proof { reveal_strlit("bottom_right"); }
    owned("bottom_right")
}

/// Default direction the strip runs in.
pub fn default_direction() -> (r: String)
    ensures
        r@ == default_direction_chars(),
{
    proof { reveal_strlit("counter_clockwise"); }
    owned("counter_clockwise")
}

/// The `[device]` section.
#[derive(Debug)]
pub struct DeviceSection {
    pub port: String,
    pub leds: u8,
}

/// The `[effect]` section.
#[derive(Debug)]
pub struct EffectSection {
    pub mode: EffectMode,
    /// Bit pattern of the brightness in `[0, 1]`.
    pub brightness_bits: u32,
    pub fps: u32,
    /// Bit pattern of the animation speed factor.
    pub speed_bits: u32,
}

/// The `[solid]` section: the accent colour.
#[derive(Debug)]
pub struct SolidSection {
    pub color: String,
}

/// The `[candle]` section.
#[derive(Debug)]
pub struct CandleSection {
    /// Bit pattern of the warmth in `[0, 1]`.
    pub warmth_bits: u32,
}

/// The `[screen]` section.
#[derive(Debug)]
pub struct ScreenSection {
    pub monitor: u32,
    pub layout: String,
    pub forget_portal: bool,
}

/// The `[audio]` section.
#[derive(Debug)]
pub struct AudioSection {
    pub sound_mode: SoundMode,
    /// Bit pattern of the brightness boost in `[0, 1]`.
    pub reactivity_bits: u32,
    /// Bit pattern of the meter sensitivity in `[0, 1]`.
    pub sensitivity_bits: u32,
}

/// The whole runtime configuration (`config.toml`).
#[derive(Debug)]
pub struct RuntimeConfig {
    pub device: DeviceSection,
    pub effect: EffectSection,
    pub solid: SolidSection,
    pub candle: CandleSection,
    pub screen: ScreenSection,
    pub audio: AudioSection,
}

/// `c` is the configuration written on first start.
pub open spec fn is_default_config(c: ConfigModel) -> bool {
    &&& c.port == default_port_chars()
    &&& c.leds == DEFAULT_LEDS
    &&& c.mode == EffectMode::Screen
    &&& c.brightness_bits == DEFAULT_BRIGHTNESS_BITS
    &&& c.fps == DEFAULT_FPS
    &&& c.speed_bits == DEFAULT_SPEED_BITS
    &&& c.color == default_color_chars()
    &&& c.warmth_bits == DEFAULT_WARMTH_BITS
    &&& c.monitor == 0
    &&& c.layout == default_layout_chars()
    &&& !c.forget_portal
    &&& c.sound_mode == SoundMode::Off
    &&& c.reactivity_bits == DEFAULT_AUDIO_BITS
    &&& c.sensitivity_bits == DEFAULT_AUDIO_BITS
}

impl Default for RuntimeConfig {
    fn default() -> (r: Self)
        ensures
            is_default_config(r@),
    {
        RuntimeConfig {
            device: DeviceSection { port: default_port(), leds: default_leds() },
            effect: EffectSection {
                mode: EffectMode::Screen,
                brightness_bits: DEFAULT_BRIGHTNESS_BITS,
                fps: default_fps(),
                speed_bits: DEFAULT_SPEED_BITS,
            },
            solid: SolidSection { color: default_color() },
            candle: CandleSection { warmth_bits: DEFAULT_WARMTH_BITS },
            screen: ScreenSection { monitor: 0, layout: default_layout(), forget_portal: false },
            audio: AudioSection {
                sound_mode: SoundMode::Off,
                reactivity_bits: DEFAULT_AUDIO_BITS,
                sensitivity_bits: DEFAULT_AUDIO_BITS,
            },
        }
    }
}

/// Characters of `screen:`.
pub open spec fn screen_key_prefix() -> Seq<char> {
    seq!['s', 'c', 'r', 'e', 'e', 'n', ':']
}

/// Characters of `screen_center:`.
pub open spec fn screen_center_key_prefix() -> Seq<char> {
    seq!['s', 'c', 'r', 'e', 'e', 'n', '_', 'c', 'e', 'n', 't', 'e', 'r', ':']
}

/// What identifies the running effect: the mode's name, and for the screen
/// modes also the monitor index and layout file.
pub open spec fn spec_effect_key(c: ConfigModel) -> Seq<char> {
    match c.mode {
        EffectMode::Screen => screen_key_prefix() + decimal(c.monitor as nat) + seq![':'] + c.layout,
        EffectMode::ScreenCenter => screen_center_key_prefix() + decimal(c.monitor as nat) + seq![':']
            + c.layout,
        _ => mode_name(c.mode),
    }
}

/// Serial settings of one strip.
#[derive(Debug)]
pub struct DeviceConfig {
    pub port: String,
    pub baud: u32,
    pub leds: u8,
}

impl Default for DeviceConfig {
    fn default() -> (r: Self)
        ensures
            r.port@ == default_port_chars(),
            r.baud == DEFAULT_BAUD,
            r.leds == DEFAULT_LEDS,
    {
        DeviceConfig { port: default_port(), baud: DEFAULT_BAUD, leds: DEFAULT_LEDS }
    }
}

impl RuntimeConfig {
    /// The serial settings: the configured port and LED count at the fixed
    /// baud rate.
    pub fn device_config(&self) -> (d: DeviceConfig)
        ensures
            d.port@ == self.device.port@,
            d.baud == DEFAULT_BAUD,
            d.leds == self.device.leds,
    {
        DeviceConfig { port: self.device.port.clone(), baud: DEFAULT_BAUD, leds: self.device.leds }
    }

    /// The key of the effect this configuration runs; see [`spec_effect_key`].
    pub fn effect_key(&self) -> (k: String)
        ensures
            k@ == spec_effect_key(self@),
    {
        match self.effect.mode {
            EffectMode::Screen => {
                proof { reveal_strlit("screen:"); reveal_strlit(":"); }
                let mut k = owned("screen:");
                push_decimal(&mut k, self.screen.monitor);
                push_str(&mut k, ":");
                push_str(&mut k, self.screen.layout.as_str());
                k
            },
            EffectMode::ScreenCenter => {
                proof { reveal_strlit("screen_center:"); reveal_strlit(":"); }
                let mut k = owned("screen_center:");
                push_decimal(&mut k, self.screen.monitor);
                push_str(&mut k, ":");
                push_str(&mut k, self.screen.layout.as_str());
                k
            },
            _ => owned(self.effect.mode.as_str()),
        }
    }
}

/// Characters of `hyper-sync`.
pub open spec fn app_dir_chars() -> Seq<char> {
    seq!['h', 'y', 'p', 'e', 'r', '-', 's', 'y', 'n', 'c']
}

/// Characters of `.config`.
pub open spec fn dot_config_chars() -> Seq<char> {
    seq!['.', 'c', 'o', 'n', 'f', 'i', 'g']
}

/// Characters of `.cache`.
pub open spec fn dot_cache_chars() -> Seq<char> {
    seq!['.', 'c', 'a', 'c', 'h', 'e']
}

/// Characters of `hyper-sync.sock`.
pub open spec fn socket_name_chars() -> Seq<char> {
    seq!['h', 'y', 'p', 'e', 'r', '-', 's', 'y', 'n', 'c', '.', 's', 'o', 'c', 'k']
}

/// Characters of `config.toml`.
pub open spec fn config_file_chars() -> Seq<char> {
    seq!['c', 'o', 'n', 'f', 'i', 'g', '.', 't', 'o', 'm', 'l']
}

/// Characters of `restore-token`.
pub open spec fn token_file_chars() -> Seq<char> {
    seq!['r', 'e', 's', 't', 'o', 'r', 'e', '-', 't', 'o', 'k', 'e', 'n']
}

/// A base directory from an optional variable, else `$HOME/<fallback>`, else
/// `<fallback>` alone.
pub open spec fn spec_base_dir(var: Option<Seq<char>>, home: Option<Seq<char>>, fallback: Seq<char>) -> Seq<char> {
    match var {
        Some(v) => v,
        None => match home {
            Some(h) => spec_join(h, fallback),
            None => fallback,
        },
    }
}

fn base_dir(var: Option<&str>, home: Option<&str>, fallback: &str) -> (r: String)
    ensures
        r@ == spec_base_dir(
            match var { Some(v) => Some(v@), None => None },
            match home { Some(h) => Some(h@), None => None },
            fallback@,
        ),
{
    match var {
        Some(v) => owned(v),
        None => match home {
            Some(h) => join_path(h, fallback),
            None => owned(fallback),
        },
    }
}

/// The view of an optional string.
pub open spec fn opt_view(o: Option<&str>) -> Option<Seq<char>> {
    match o {
        Some(s) => Some(s@),
        None => None,
    }
}

/// The configuration directory: `hyper-sync` under `$XDG_CONFIG_HOME`, else
/// under `$HOME/.config`, else under `.config`.
pub open spec fn spec_config_dir(xdg_config_home: Option<Seq<char>>, home: Option<Seq<char>>) -> Seq<char> {
    spec_join(spec_base_dir(xdg_config_home, home, dot_config_chars()), app_dir_chars())
}

/// The configuration directory from the values of `XDG_CONFIG_HOME` and
/// `HOME` (each `None` when unset); see [`spec_config_dir`].
pub fn config_dir_from(xdg_config_home: Option<&str>, home: Option<&str>) -> (r: String)
    ensures
        r@ == spec_config_dir(opt_view(xdg_config_home), opt_view(home)),
{
    proof { reveal_strlit(".config"); reveal_strlit("hyper-sync"); }
    let base = base_dir(xdg_config_home, home, ".config");
    join_path(base.as_str(), "hyper-sync")
}

/// The runtime configuration file inside the configuration directory.
pub fn runtime_config_path(config_dir: &str) -> (r: String)
    ensures
        r@ == spec_join(config_dir@, config_file_chars()),
{
    proof { reveal_strlit("config.toml"); }
    join_path(config_dir, "config.toml")
}

/// The saved screen-capture permission token inside the configuration
/// directory.
pub fn portal_token_path(config_dir: &str) -> (r: String)
    ensures
        r@ == spec_join(config_dir@, token_file_chars()),
{
    proof { reveal_strlit("restore-token"); }
    join_path(config_dir, "restore-token")
}

/// The IPC socket: `hyper-sync.sock` in `$XDG_RUNTIME_DIR`, else in the
/// `hyper-sync` directory of the cache (`$XDG_CACHE_HOME`, else
/// `$HOME/.cache`, else `.cache`).
pub open spec fn spec_ipc_socket_path(
    runtime_dir: Option<Seq<char>>,
    cache_home: Option<Seq<char>>,
    home: Option<Seq<char>>,
) -> Seq<char> {
    match runtime_dir {
        Some(d) => spec_join(d, socket_name_chars()),
        None => spec_join(
            spec_join(spec_base_dir(cache_home, home, dot_cache_chars()), app_dir_chars()),
            socket_name_chars(),
        ),
    }
}

/// The IPC socket path from `XDG_RUNTIME_DIR`, `XDG_CACHE_HOME` and `HOME`;
/// see [`spec_ipc_socket_path`].
pub fn ipc_socket_path_from(runtime_dir: Option<&str>, cache_home: Option<&str>, home: Option<&str>) -> (r: String)
    ensures
        r@ == spec_ipc_socket_path(opt_view(runtime_dir), opt_view(cache_home), opt_view(home)),
{
    proof { reveal_strlit(".cache"); reveal_strlit("hyper-sync.sock"); reveal_strlit("hyper-sync"); }
    match runtime_dir {
        Some(d) => join_path(d, "hyper-sync.sock"),
        None => {
            let base = base_dir(cache_home, home, ".cache");
            let dir = join_path(base.as_str(), "hyper-sync");
            join_path(dir.as_str(), "hyper-sync.sock")
        },
    }
}

/// One run of LEDs in the layout file.
#[derive(Debug)]
pub struct Segment {
    pub name: String,
    pub count: u8,
    pub edge: String,
}

/// The LED layout file: LED count, where the strip starts, which way it
/// runs, and its runs along the screen edges.
#[derive(Debug)]
pub struct LayoutConfig {
    pub led_count: u8,
    pub origin: String,
    pub direction: String,
    pub segments: Vec<Segment>,
}

/// Total number of LEDs that the first `k` segments declare.
pub open spec fn segments_total(segs: Seq<Segment>, k: int) -> int
    decreases k,
{
    if k <= 0 {
        0
    } else {
        segments_total(segs, k - 1) + segs[k - 1].count
    }
}

impl LayoutConfig {
    /// Number of LED zones the layout yields: one per LED its segments
    /// declare, cut off at `led_count`.
    pub open spec fn spec_zone_count(&self) -> int {
        let total = segments_total(self.segments@, self.segments@.len() as int);
        if total < self.led_count { total } else { self.led_count as int }
    }

    /// The number of zones; see [`LayoutConfig::spec_zone_count`].
    pub fn zone_count(&self) -> (r: usize)
        ensures
            r == self.spec_zone_count(),
    {
        let ghost segs = self.segments@;
        let cap: u64 = self.led_count as u64;
        let mut total: u64 = 0;
        let mut i: usize = 0;
        while i < self.segments.len()
            invariant
                segs == self.segments@,
                cap == self.led_count,
                i <= segs.len(),
                total <= cap,
                total == (if segments_total(segs, i as int) < cap { segments_total(segs, i as int) } else { cap as int }),
            decreases segs.len() - i,
        {
            proof {
                lemma_segments_total_nonneg(segs, i as int);
                lemma_segments_total_grows(segs, i as int);
            }
            let c = self.segments[i].count as u64;
            if total + c >= cap {
                total = cap;
            } else {
                total = total + c;
            }
            i += 1;
        }
        total as usize
    }

    /// Whether the layout yields exactly one zone per LED.
    pub fn covers_strip(&self) -> (r: bool)
        ensures
            r == (self.spec_zone_count() == self.led_count),
    {
        self.zone_count() == self.led_count as usize
    }
}

proof fn lemma_segments_total_nonneg(segs: Seq<Segment>, k: int)
    ensures
        segments_total(segs, k) >= 0,
    decreases k,
{
    if k > 0 {
        lemma_segments_total_nonneg(segs, k - 1);
    }
}

proof fn lemma_segments_total_grows(segs: Seq<Segment>, k: int)
    requires
        k >= 0,
    ensures
        segments_total(segs, k + 1) == segments_total(segs, k) + segs[k].count,
{
}


/// The mathematical value of a runtime configuration: every field, strings
/// as character sequences.
pub struct ConfigModel {
    pub port: Seq<char>,
    pub leds: u8,
    pub mode: EffectMode,
    pub brightness_bits: u32,
    pub fps: u32,
    pub speed_bits: u32,
    pub color: Seq<char>,
    pub warmth_bits: u32,
    pub monitor: u32,
    pub layout: Seq<char>,
    pub forget_portal: bool,
    pub sound_mode: SoundMode,
    pub reactivity_bits: u32,
    pub sensitivity_bits: u32,
}

impl View for RuntimeConfig {
    type V = ConfigModel;

    open spec fn view(&self) -> ConfigModel {
        ConfigModel {
            port: self.device.port@,
            leds: self.device.leds,
            mode: self.effect.mode,
            brightness_bits: self.effect.brightness_bits,
            fps: self.effect.fps,
            speed_bits: self.effect.speed_bits,
            color: self.solid.color@,
            warmth_bits: self.candle.warmth_bits,
            monitor: self.screen.monitor,
            layout: self.screen.layout@,
            forget_portal: self.screen.forget_portal,
            sound_mode: self.audio.sound_mode,
            reactivity_bits: self.audio.reactivity_bits,
            sensitivity_bits: self.audio.sensitivity_bits,
        }
    }
}

impl RuntimeConfig {
    /// A field-by-field copy.
    pub fn duplicate(&self) -> (r: RuntimeConfig)
        ensures
            r@ == self@,
    {
        RuntimeConfig {
            device: DeviceSection { port: self.device.port.clone(), leds: self.device.leds },
            effect: EffectSection {
                mode: self.effect.mode,
                brightness_bits: self.effect.brightness_bits,
                fps: self.effect.fps,
                speed_bits: self.effect.speed_bits,
            },
            solid: SolidSection { color: self.solid.color.clone() },
            candle: CandleSection { warmth_bits: self.candle.warmth_bits },
            screen: ScreenSection {
                monitor: self.screen.monitor,
                layout: self.screen.layout.clone(),
                forget_portal: self.screen.forget_portal,
            },
            audio: AudioSection {
                sound_mode: self.audio.sound_mode,
                reactivity_bits: self.audio.reactivity_bits,
                sensitivity_bits: self.audio.sensitivity_bits,
            },
        }
    }
}


/// The configuration to write on start when the file is missing: the
/// default configuration when `path_exists` is false, nothing otherwise.
pub fn write_default_config_if_missing(path_exists: bool) -> (r: Option<RuntimeConfig>)
    ensures
        r is Some <==> !path_exists,
        r matches Some(c) ==> is_default_config(c@),
{
    if path_exists {
        None
    } else {
        Some(RuntimeConfig::default())
    }
}

/// A character with the Unicode `White_Space` property (`char::is_whitespace`).
pub open spec fn is_white_space(c: char) -> bool {
    let u = c as u32;
    ||| 9 <= u <= 13
    ||| u == 32
    ||| u == 0x85
    ||| u == 0xA0
    ||| u == 0x1680
    ||| 0x2000 <= u <= 0x200A
    ||| u == 0x2028
    ||| u == 0x2029
    ||| u == 0x202F
    ||| u == 0x205F
    ||| u == 0x3000
}

fn white_space(c: char) -> (r: bool)
    ensures
        r == is_white_space(c),
{
    let u = c as u32;
    (9 <= u && u <= 13) || u == 32 || u == 0x85 || u == 0xA0 || u == 0x1680 || (0x2000 <= u && u <= 0x200A)
        || u == 0x2028 || u == 0x2029 || u == 0x202F || u == 0x205F || u == 0x3000
}

/// `s` without its leading white space.
pub open spec fn trim_start_ws(s: Seq<char>) -> Seq<char>
    decreases s.len(),
{
    if s.len() > 0 && is_white_space(s[0]) {
        trim_start_ws(s.drop_first())
    } else {
        s
    }
}

/// `s` without its trailing white space.
pub open spec fn trim_end_ws(s: Seq<char>) -> Seq<char>
    decreases s.len(),
{
    if s.len() > 0 && is_white_space(s.last()) {
        trim_end_ws(s.drop_last())
    } else {
        s
    }
}

/// `s` without leading and trailing white space (`str::trim`).
pub open spec fn spec_trim(s: Seq<char>) -> Seq<char> {
    trim_end_ws(trim_start_ws(s))
}

/// `str::trim`: the characters of `s` without leading and trailing white
/// space.
pub fn trim_text(s: &str) -> (r: String)
    ensures
        r@ == spec_trim(s@),
{
    let n = s.unicode_len();
    let mut i: usize = 0;
    assert(s@.subrange(0, n as int) =~= s@);
    while i < n && white_space(s.get_char(i))
        invariant
            n == s@.len(),
            i <= n,
            trim_start_ws(s@.subrange(i as int, n as int)) == trim_start_ws(s@),
        decreases n - i,
    {
        assert(s@.subrange(i as int, n as int).drop_first() =~= s@.subrange(i + 1, n as int));
        i += 1;
    }
    let mut j: usize = n;
    while j > i && white_space(s.get_char(j - 1))
        invariant
            n == s@.len(),
            i <= j <= n,
            trim_start_ws(s@) == s@.subrange(i as int, n as int),
            trim_end_ws(s@.subrange(i as int, j as int)) == spec_trim(s@),
        decreases j - i,
    {
        assert(s@.subrange(i as int, j as int).drop_last() =~= s@.subrange(i as int, j - 1));
        j -= 1;
    }
    let mut r = String::new();
    let mut k: usize = i;
    while k < j
        invariant
            n == s@.len(),
            i <= k <= j <= n,
            r@ == s@.subrange(i as int, k as int),
        decreases j - k,
    {
        crate::text::push_char(&mut r, s.get_char(k));
        assert(s@.subrange(i as int, k + 1) =~= s@.subrange(i as int, k as int).push(s@[k as int]));
        k += 1;
    }
    r
}

/// The saved screen-capture token from the file's contents (`None` when
/// the file could not be read): the trimmed text, unless that is empty.
pub fn load_portal_token(contents: Option<&str>) -> (r: Option<String>)
    ensures
        match contents {
            None => r is None,
            Some(t) => if spec_trim(t@).len() == 0 { r is None } else { r matches Some(tok) && tok@ == spec_trim(t@) },
        },
{
    match contents {
        None => None,
        Some(t) => {
            let tok = trim_text(t);
            if tok.as_str().unicode_len() == 0 {
                None
            } else {
                Some(tok)
            }
        },
    }
}

/// A token written without surrounding white space reads back unchanged.
pub proof fn lemma_saved_token_reads_back(t: Seq<char>)
    requires
        t.len() > 0,
        !is_white_space(t[0]),
        !is_white_space(t.last()),
    ensures
        spec_trim(t) == t,
{
}

/// Characters of `config/layout.toml`.
pub open spec fn project_layout_chars() -> Seq<char> {
    seq!['c', 'o', 'n', 'f', 'i', 'g', '/'] + seq!['l', 'a', 'y', 'o', 'u', 't', '.', 't', 'o', 'm', 'l']
}

/// Characters of `layout.toml`.
pub open spec fn layout_file_chars() -> Seq<char> {
    seq!['l', 'a', 'y', 'o', 'u', 't', '.', 't', 'o', 'm', 'l']
}

/// Where a layout file is looked for, in order: the path itself, under the
/// working directory, next to the executable, the project's
/// `config/layout.toml` next to the executable, and `layout.toml` in the
/// configuration directory. Unknown directories (`None`) are skipped.
pub open spec fn layout_candidates(path: Seq<char>, cwd: Option<Seq<char>>, exe_dir: Option<Seq<char>>, config_dir: Seq<char>) -> Seq<Seq<char>> {
    let from_cwd = match cwd {
        Some(d) => seq![spec_join(d, path)],
        None => Seq::empty(),
    };
    let from_exe = match exe_dir {
        Some(d) => seq![spec_join(d, path), spec_join(d, project_layout_chars())],
        None => Seq::empty(),
    };
    seq![path] + from_cwd + from_exe + seq![spec_join(config_dir, layout_file_chars())]
}

/// The places to look for a layout file; see [`layout_candidates`].
pub fn layout_search_order(path: &str, cwd: Option<&str>, exe_dir: Option<&str>, config_dir: &str) -> (v: Vec<String>)
    ensures
        v@.len() == layout_candidates(path@, opt_view(cwd), opt_view(exe_dir), config_dir@).len(),
        forall|i: int| 0 <= i < v@.len() ==> #[trigger] v@[i]@ == layout_candidates(path@, opt_view(cwd), opt_view(exe_dir), config_dir@)[i],
{
    proof {
        reveal_strlit("config/layout.toml");
        reveal_strlit("layout.toml");
    }
    let ghost want = layout_candidates(path@, opt_view(cwd), opt_view(exe_dir), config_dir@);
    let mut v: Vec<String> = Vec::new();
    v.push(owned(path));
    if let Some(d) = cwd {
        v.push(join_path(d, path));
    }
    if let Some(d) = exe_dir {
        v.push(join_path(d, path));
        let proj = "config/layout.toml";
        assert(proj@ =~= project_layout_chars());
        v.push(join_path(d, proj));
    }
    let file = "layout.toml";
    assert(file@ =~= layout_file_chars());
    v.push(join_path(config_dir, file));
    assert forall|i: int| 0 <= i < v@.len() implies #[trigger] v@[i]@ == want[i] by {}
    v
}

/// Resolves a configured layout path: the first of
/// [`layout_candidates`] that exists (`exists[i]` tells whether the `i`-th
/// does), else `path` unchanged.
pub fn resolve_layout_path(path: &str, cwd: Option<&str>, exe_dir: Option<&str>, config_dir: &str, exists: &Vec<bool>) -> (r: String)
    requires
        exists@.len() == layout_candidates(path@, opt_view(cwd), opt_view(exe_dir), config_dir@).len(),
    ensures
        r@ == spec_first_existing(layout_candidates(path@, opt_view(cwd), opt_view(exe_dir), config_dir@), exists@, path@),
{
    let cands = layout_search_order(path, cwd, exe_dir, config_dir);
    let ghost want = layout_candidates(path@, opt_view(cwd), opt_view(exe_dir), config_dir@);
    assert(cands@.map_values(|c: String| c@) =~= want);
    first_existing(&cands, exists, path)
}

/// `rainbow` is not a mode that can be asked for by name (it is requested
/// as the solid mode with the rainbow colour).
pub proof fn lemma_rainbow_not_a_mode_name()
    ensures
        spec_parse_mode(mode_name(EffectMode::Rainbow)) is None,
{
    if spec_parse_mode(mode_name(EffectMode::Rainbow)) is Some {
        let c = choose|m: EffectMode| parseable_mode(m) && mode_name(m) == mode_name(EffectMode::Rainbow);
        lemma_mode_name_injective(c, EffectMode::Rainbow);
    }
}

proof fn lemma_trim_start_shape(s: Seq<char>)
    ensures
        trim_start_ws(s).len() <= s.len(),
        trim_start_ws(s) == s.subrange(s.len() - trim_start_ws(s).len(), s.len() as int),
        trim_start_ws(s).len() == 0 || !is_white_space(trim_start_ws(s)[0]),
        forall|k: int| 0 <= k < s.len() - trim_start_ws(s).len() ==> is_white_space(#[trigger] s[k]),
    decreases s.len(),
{
    if s.len() > 0 && is_white_space(s[0]) {
        let r = s.drop_first();
        lemma_trim_start_shape(r);
        assert(r.subrange(r.len() - trim_start_ws(r).len(), r.len() as int) =~= s.subrange(
            s.len() - trim_start_ws(r).len(),
            s.len() as int,
        ));
        assert forall|k: int| 0 <= k < s.len() - trim_start_ws(s).len() implies is_white_space(#[trigger] s[k]) by {
            if k > 0 {
                assert(s[k] == r[k - 1]);
            }
        }
    } else {
        assert(s.subrange(0, s.len() as int) =~= s);
    }
}

proof fn lemma_trim_end_shape(s: Seq<char>)
    ensures
        trim_end_ws(s).len() <= s.len(),
        trim_end_ws(s) == s.subrange(0, trim_end_ws(s).len() as int),
        trim_end_ws(s).len() == 0 || !is_white_space(trim_end_ws(s).last()),
        forall|k: int| trim_end_ws(s).len() <= k < s.len() ==> is_white_space(#[trigger] s[k]),
    decreases s.len(),
{
    if s.len() > 0 && is_white_space(s.last()) {
        let r = s.drop_last();
        lemma_trim_end_shape(r);
        assert(r.subrange(0, trim_end_ws(r).len() as int) =~= s.subrange(0, trim_end_ws(r).len() as int));
        assert forall|k: int| trim_end_ws(s).len() <= k < s.len() implies is_white_space(#[trigger] s[k]) by {
            if k < s.len() - 1 {
                assert(s[k] == r[k]);
            }
        }
    } else {
        assert(s.subrange(0, s.len() as int) =~= s);
    }
}

/// Trimming keeps a contiguous part of the text: it neither starts nor
/// ends with white space, and everything cut off before or after it is
/// white space.
pub proof fn lemma_trim_shape(s: Seq<char>)
    ensures
        ({
            let t = spec_trim(s);
            &&& t.len() == 0 || (!is_white_space(t[0]) && !is_white_space(t.last()))
            &&& exists|i: int| #![trigger s.subrange(i, i + t.len())]
                0 <= i && i + t.len() <= s.len() && t == s.subrange(i, i + t.len())
                && (forall|k: int| 0 <= k < i ==> is_white_space(#[trigger] s[k]))
                && (forall|k: int| i + t.len() <= k < s.len() ==> is_white_space(#[trigger] s[k]))
        }),
{
    let a = trim_start_ws(s);
    lemma_trim_start_shape(s);
    lemma_trim_end_shape(a);
    let t = trim_end_ws(a);
    let i = s.len() - a.len();
    assert(t =~= s.subrange(i, i + t.len()));
    if t.len() > 0 {
        assert(t[0] == a[0]);
    }
    assert forall|k: int| i + t.len() <= k < s.len() implies is_white_space(#[trigger] s[k]) by {
        assert(s[k] == a[k - i]);
    }
}

/// The names the modes go by in the configuration file and over IPC.
pub proof fn lemma_mode_names()
    ensures
        mode_name(EffectMode::Off) == "off"@ && mode_name(EffectMode::Solid) == "solid"@,
        mode_name(EffectMode::Candle) == "candle"@ && mode_name(EffectMode::Chase) == "chase"@,
        mode_name(EffectMode::Wave) == "wave"@ && mode_name(EffectMode::Rainbow) == "rainbow"@,
        mode_name(EffectMode::Scanner) == "scanner"@ && mode_name(EffectMode::Sparkle) == "sparkle"@,
        mode_name(EffectMode::Pulse) == "pulse"@ && mode_name(EffectMode::Aurora) == "aurora"@,
        mode_name(EffectMode::Fire) == "fire"@ && mode_name(EffectMode::Heartbeat) == "heartbeat"@,
        mode_name(EffectMode::Segment) == "segment"@ && mode_name(EffectMode::Strobe) == "strobe"@,
        mode_name(EffectMode::Wipe) == "wipe"@ && mode_name(EffectMode::SoundViz) == "sound_viz"@,
        mode_name(EffectMode::Screen) == "screen"@ && mode_name(EffectMode::ScreenCenter) == "screen_center"@,
        sound_mode_name(SoundMode::Off) == "off"@ && sound_mode_name(SoundMode::Level) == "level"@
            && sound_mode_name(SoundMode::Balance) == "balance"@,
{
    reveal_strlit("off");
    reveal_strlit("solid");
    reveal_strlit("candle");
    reveal_strlit("chase");
    reveal_strlit("wave");
    reveal_strlit("rainbow");
    reveal_strlit("scanner");
    reveal_strlit("sparkle");
    reveal_strlit("pulse");
    reveal_strlit("aurora");
    reveal_strlit("fire");
    reveal_strlit("heartbeat");
    reveal_strlit("segment");
    reveal_strlit("strobe");
    reveal_strlit("wipe");
    reveal_strlit("sound_viz");
    reveal_strlit("screen");
    reveal_strlit("screen_center");
    reveal_strlit("level");
    reveal_strlit("balance");
    assert(mode_name(EffectMode::Off) =~= "off"@);
    assert(mode_name(EffectMode::Solid) =~= "solid"@);
    assert(mode_name(EffectMode::Candle) =~= "candle"@);
    assert(mode_name(EffectMode::Chase) =~= "chase"@);
    assert(mode_name(EffectMode::Wave) =~= "wave"@);
    assert(mode_name(EffectMode::Rainbow) =~= "rainbow"@);
    assert(mode_name(EffectMode::Scanner) =~= "scanner"@);
    assert(mode_name(EffectMode::Sparkle) =~= "sparkle"@);
    assert(mode_name(EffectMode::Pulse) =~= "pulse"@);
    assert(mode_name(EffectMode::Aurora) =~= "aurora"@);
    assert(mode_name(EffectMode::Fire) =~= "fire"@);
    assert(mode_name(EffectMode::Heartbeat) =~= "heartbeat"@);
    assert(mode_name(EffectMode::Segment) =~= "segment"@);
    assert(mode_name(EffectMode::Strobe) =~= "strobe"@);
    assert(mode_name(EffectMode::Wipe) =~= "wipe"@);
    assert(mode_name(EffectMode::SoundViz) =~= "sound_viz"@);
    assert(mode_name(EffectMode::Screen) =~= "screen"@);
    assert(mode_name(EffectMode::ScreenCenter) =~= "screen_center"@);
    assert(sound_mode_name(SoundMode::Off) =~= "off"@);
    assert(sound_mode_name(SoundMode::Level) =~= "level"@);
    assert(sound_mode_name(SoundMode::Balance) =~= "balance"@);
}

} // verus!
