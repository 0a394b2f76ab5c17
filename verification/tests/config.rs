use hyper_sync::config::{
    config_dir_from, default_color, default_direction, default_fps, default_layout, default_leds, default_origin,
    default_port, ipc_socket_path_from, layout_search_order, load_portal_token, parse_mode, parse_sound_mode,
    portal_token_path, resolve_layout_path, runtime_config_path, trim_text, write_default_config_if_missing,
    ConfigError, EffectMode, LayoutConfig, RuntimeConfig, Segment, SoundMode, DEFAULT_AUDIO_BITS, DEFAULT_BAUD,
    DEFAULT_BRIGHTNESS_BITS, DEFAULT_FPS, DEFAULT_LEDS, DEFAULT_PORT, DEFAULT_SPEED_BITS, DEFAULT_WARMTH_BITS,
};

const ALL_MODES: [EffectMode; 18] = [
    EffectMode::Off,
    EffectMode::Solid,
    EffectMode::Candle,
    EffectMode::Chase,
    EffectMode::Wave,
    EffectMode::Rainbow,
    EffectMode::Scanner,
    EffectMode::Sparkle,
    EffectMode::Pulse,
    EffectMode::Aurora,
    EffectMode::Fire,
    EffectMode::Heartbeat,
    EffectMode::Segment,
    EffectMode::Strobe,
    EffectMode::Wipe,
    EffectMode::SoundViz,
    EffectMode::Screen,
    EffectMode::ScreenCenter,
];

#[test]
fn mode_names() {
    assert_eq!(EffectMode::Off.as_str(), "off");
    assert_eq!(EffectMode::ScreenCenter.as_str(), "screen_center");
    assert_eq!(EffectMode::SoundViz.as_str(), "sound_viz");
    assert_eq!(EffectMode::Rainbow.as_str(), "rainbow");
}

#[test]
fn parse_mode_inverts_as_str_except_rainbow() {
    for m in ALL_MODES {
        if m == EffectMode::Rainbow {
            assert!(matches!(parse_mode(m.as_str()), Err(ConfigError::UnknownMode(_))));
        } else {
            assert_eq!(parse_mode(m.as_str()).unwrap(), m);
        }
    }
    match parse_mode("disco") {
        Err(ConfigError::UnknownMode(n)) => assert_eq!(n, "disco"),
        other => panic!("unexpected {:?}", other),
    }
}

#[test]
fn sound_modes() {
    for m in [SoundMode::Off, SoundMode::Level, SoundMode::Balance] {
        assert_eq!(parse_sound_mode(m.as_str()).unwrap(), m);
    }
    assert_eq!(SoundMode::Balance.as_str(), "balance");
    match parse_sound_mode("loud") {
        Err(ConfigError::UnknownSoundMode(n)) => assert_eq!(n, "loud"),
        other => panic!("unexpected {:?}", other),
    }
}

#[test]
fn only_screen_modes_are_screen() {
    for m in ALL_MODES {
        assert_eq!(m.is_screen(), m == EffectMode::Screen || m == EffectMode::ScreenCenter);
    }
}

#[test]
fn defaults() {
    assert_eq!(DEFAULT_PORT, "/dev/ttyUSB0");
    assert_eq!(DEFAULT_BAUD, 115_200);
    assert_eq!(DEFAULT_LEDS, 65);
    assert_eq!(DEFAULT_FPS, 30);
    assert_eq!(f32::from_bits(DEFAULT_BRIGHTNESS_BITS), 0.8);
    assert_eq!(f32::from_bits(DEFAULT_SPEED_BITS), 1.0);
    assert_eq!(f32::from_bits(DEFAULT_WARMTH_BITS), 0.9);
    assert_eq!(f32::from_bits(DEFAULT_AUDIO_BITS), 0.3);
    assert_eq!(default_port(), "/dev/ttyUSB0");
    assert_eq!(default_leds(), 65);
    assert_eq!(default_fps(), 30);
    assert_eq!(default_color(), "ff3300");
    assert_eq!(default_layout(), "config/layout.toml");
    assert_eq!(default_origin(), "bottom_right");
    assert_eq!(default_direction(), "counter_clockwise");
}

#[test]
fn default_runtime_config() {
    let c = RuntimeConfig::default();
    assert_eq!(c.device.port, "/dev/ttyUSB0");
    assert_eq!(c.device.leds, 65);
    assert_eq!(c.effect.mode, EffectMode::Screen);
    assert_eq!(c.effect.fps, 30);
    assert_eq!(c.solid.color, "ff3300");
    assert_eq!(c.screen.monitor, 0);
    assert_eq!(c.screen.layout, "config/layout.toml");
    assert!(!c.screen.forget_portal);
    assert_eq!(c.audio.sound_mode, SoundMode::Off);
    let d = c.device_config();
    assert_eq!((d.port.as_str(), d.baud, d.leds), ("/dev/ttyUSB0", 115_200, 65));
}

#[test]
fn effect_keys() {
    let mut c = RuntimeConfig::default();
    assert_eq!(c.effect_key(), "screen:0:config/layout.toml");
    c.screen.monitor = 12;
    c.screen.layout = "/etc/l.toml".to_string();
    assert_eq!(c.effect_key(), "screen:12:/etc/l.toml");
    c.effect.mode = EffectMode::ScreenCenter;
    assert_eq!(c.effect_key(), "screen_center:12:/etc/l.toml");
    c.effect.mode = EffectMode::Candle;
    assert_eq!(c.effect_key(), "candle");
    let d = c.duplicate();
    assert_eq!(d.effect_key(), "candle");
    assert_eq!(d.screen.layout, "/etc/l.toml");
}

#[test]
fn config_paths() {
    assert_eq!(config_dir_from(Some("/x"), Some("/home/u")), "/x/hyper-sync");
    assert_eq!(config_dir_from(None, Some("/home/u")), "/home/u/.config/hyper-sync");
    assert_eq!(config_dir_from(None, Some("/home/u/")), "/home/u/.config/hyper-sync");
    assert_eq!(config_dir_from(None, None), ".config/hyper-sync");
    assert_eq!(runtime_config_path("/home/u/.config/hyper-sync"), "/home/u/.config/hyper-sync/config.toml");
    assert_eq!(portal_token_path("/c/hyper-sync"), "/c/hyper-sync/restore-token");
}

#[test]
fn socket_paths() {
    assert_eq!(ipc_socket_path_from(Some("/run/user/1000"), None, Some("/home/u")), "/run/user/1000/hyper-sync.sock");
    assert_eq!(ipc_socket_path_from(None, None, Some("/home/u")), "/home/u/.cache/hyper-sync/hyper-sync.sock");
    assert_eq!(ipc_socket_path_from(None, Some("/c"), Some("/home/u")), "/c/hyper-sync/hyper-sync.sock");
    assert_eq!(ipc_socket_path_from(None, None, None), ".cache/hyper-sync/hyper-sync.sock");
}

#[test]
fn default_written_only_when_missing() {
    assert!(write_default_config_if_missing(true).is_none());
    let c = write_default_config_if_missing(false).unwrap();
    assert_eq!(c.effect.mode, EffectMode::Screen);
    assert_eq!(c.effect.brightness_bits, DEFAULT_BRIGHTNESS_BITS);
}

#[test]
fn token_is_trimmed() {
    assert_eq!(trim_text("  tok \n"), "tok");
    assert_eq!(trim_text("\u{3000}a b\u{a0}"), "a b");
    assert_eq!(load_portal_token(Some(" abc\n")), Some("abc".to_string()));
    assert_eq!(load_portal_token(Some(" \t\n")), None);
    assert_eq!(load_portal_token(Some("")), None);
    assert_eq!(load_portal_token(None), None);
    for s in ["", " x ", "\u{2028}y\u{85}", "a\tb", "\u{200b}z"] {
        assert_eq!(trim_text(s), s.trim());
    }
}

#[test]
fn layout_search() {
    let order = layout_search_order("config/layout.toml", Some("/w"), Some("/opt/bin"), "/home/u/.config/hyper-sync");
    assert_eq!(
        order,
        vec![
            "config/layout.toml",
            "/w/config/layout.toml",
            "/opt/bin/config/layout.toml",
            "/opt/bin/config/layout.toml",
            "/home/u/.config/hyper-sync/layout.toml",
        ]
    );
    let order = layout_search_order("/abs/l.toml", None, None, "/c");
    assert_eq!(order, vec!["/abs/l.toml", "/c/layout.toml"]);
    let r = resolve_layout_path("l.toml", Some("/w"), None, "/c", &vec![false, false, true]);
    assert_eq!(r, "/c/layout.toml");
    let r = resolve_layout_path("l.toml", Some("/w"), None, "/c", &vec![false, true, true]);
    assert_eq!(r, "/w/l.toml");
    let r = resolve_layout_path("l.toml", Some("/w"), None, "/c", &vec![false, false, false]);
    assert_eq!(r, "l.toml");
}

fn seg(count: u8) -> Segment {
    Segment { name: "s".to_string(), count, edge: "top".to_string() }
}

#[test]
fn layout_zone_count() {
    let l = LayoutConfig {
        led_count: 65,
        origin: "bottom_right".to_string(),
        direction: "counter_clockwise".to_string(),
        segments: vec![seg(17), seg(31), seg(17)],
    };
    assert_eq!(l.zone_count(), 65);
    assert!(l.covers_strip());
    let l = LayoutConfig { led_count: 20, segments: vec![seg(17), seg(31)], ..l };
    assert_eq!(l.zone_count(), 20);
    let l = LayoutConfig { led_count: 60, segments: vec![seg(17), seg(31)], ..l };
    assert_eq!(l.zone_count(), 48);
    assert!(!l.covers_strip());
}
