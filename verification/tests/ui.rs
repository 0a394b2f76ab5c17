use hyper_sync::config::EffectMode;
use hyper_sync::ui::{
    color_picker_enabled, color_preset_at, color_preset_label, fps_preset_label, is_screen_sync, item_height,
    label_style, mode_at, mode_index, mode_label, mode_name_at, pick_hint, status_line, uses_accent_color, uses_speed,
    LabelStyle, ListRow, UiSelection, COLOR_PRESET_COUNT, MODE_COUNT, SPEED_MAX_BITS, SPEED_MIN_BITS,
};

#[test]
fn effect_list() {
    assert_eq!(MODE_COUNT, 17);
    assert_eq!(mode_name_at(0), "off");
    assert_eq!(mode_name_at(1), "screen");
    assert_eq!(mode_name_at(2), "screen_center");
    assert_eq!(mode_name_at(16), "sound_viz");
    assert_eq!(mode_at(3), EffectMode::Solid);
    for i in 0..MODE_COUNT {
        assert_eq!(mode_at(i).as_str(), mode_name_at(i));
        assert_eq!(mode_index(mode_name_at(i)), Some(i));
    }
    assert_eq!(mode_index("rainbow"), None);
    assert_eq!(f32::from_bits(SPEED_MIN_BITS), 0.1);
    assert_eq!(f32::from_bits(SPEED_MAX_BITS), 5.0);
}

#[test]
fn labels_and_heights() {
    assert_eq!(mode_label("screen_center"), "Screen Sync Center");
    assert_eq!(mode_label("sound_viz"), "Sound Viz");
    assert_eq!(mode_label("mystery"), "mystery");
    assert_eq!(item_height(3, "solid"), 3);
    assert_eq!(item_height(4, "solid"), 1);
}

#[test]
fn which_controls_apply() {
    assert!(is_screen_sync("screen") && is_screen_sync("screen_center"));
    assert!(!is_screen_sync("solid"));
    assert!(uses_speed("candle") && uses_speed("wave"));
    assert!(!uses_speed("off") && !uses_speed("solid") && !uses_speed("sound_viz") && !uses_speed("screen"));
    assert!(uses_accent_color("solid") && uses_accent_color("sound_viz"));
    assert!(!uses_accent_color("off") && !uses_accent_color("screen_center"));
    assert_eq!(color_picker_enabled("candle"), uses_accent_color("candle"));
}

#[test]
fn presets_sync_with_status() {
    let mut s = UiSelection::new();
    assert_eq!((s.color_idx, s.fps_idx, s.list_cursor), (7, 1, 0));
    s.color = "0099ff".to_string();
    s.sync_color_idx();
    assert_eq!(s.color_idx, 3);
    s.color = "123456".to_string();
    s.sync_color_idx();
    assert_eq!(s.color_idx, 3);
    s.fps = 60;
    s.sync_fps_idx();
    assert_eq!(s.fps_idx, 3);
    s.fps = 50;
    s.sync_fps_idx();
    assert_eq!(s.fps_idx, 2);
    s.fps = 27;
    s.sync_fps_idx();
    assert_eq!(s.fps_idx, 0);
    s.fps = 1000;
    s.sync_fps_idx();
    assert_eq!(s.fps_idx, 3);
    s.effect = "wipe".to_string();
    s.sync_list_cursor();
    assert_eq!(s.list_cursor, 15);
    s.effect = "rainbow".to_string();
    s.sync_list_cursor();
    assert_eq!(s.list_cursor, 15);
}

#[test]
fn cursor_moves_wrap() {
    let mut s = UiSelection::new();
    assert_eq!(s.move_list_cursor(-1), Some("sound_viz"));
    assert_eq!(s.list_cursor, 16);
    assert_eq!(s.effect, "sound_viz");
    assert_eq!(s.move_list_cursor(1), Some("off"));
    assert_eq!(s.list_cursor, 0);
    assert_eq!(s.move_list_cursor(17), None);
}

#[test]
fn digits_pick_entries() {
    let mut s = UiSelection::new();
    assert_eq!(s.on_digit('4'), Some("solid"));
    assert_eq!(s.list_cursor, 3);
    assert_eq!(s.on_digit('0'), None);
    assert_eq!(s.digit_buf, "0");
    assert_eq!(s.on_digit('9'), Some("sparkle"));
    assert_eq!(s.list_cursor, 8);
    assert_eq!(s.digit_buf, "");
    s.on_digit('0');
    assert_eq!(s.on_digit('0'), Some("sparkle"));
    s.on_digit('0');
    assert!(!s.on_escape());
    assert!(s.on_escape());
    s.digit_buf = "17".to_string();
    assert_eq!(s.apply_digit_pick(), "sound_viz");
    s.digit_buf = "18".to_string();
    assert_eq!(s.apply_digit_pick(), "sound_viz");
}

#[test]
fn colour_fps_and_sound_cycles() {
    let mut s = UiSelection::new();
    assert_eq!(s.cycle_color(1), None);
    s.patch_mode("solid");
    assert_eq!(s.cycle_color(1), Some("ff3300".to_string()));
    assert_eq!(s.color_idx, 0);
    assert_eq!(s.cycle_color(-1), Some("rainbow".to_string()));
    assert_eq!(s.color_idx, COLOR_PRESET_COUNT - 1);
    assert_eq!(color_preset_at(4), "00ff88");
    assert_eq!(s.cycle_fps(1), 45);
    assert_eq!(s.cycle_fps(-2), 24);
    assert_eq!(s.cycle_fps(-1), 60);
    assert_eq!(s.cycle_sound_mode(), "level");
    assert_eq!(s.cycle_sound_mode(), "balance");
    assert_eq!(s.cycle_sound_mode(), "off");
    s.sound_mode = "weird".to_string();
    assert_eq!(s.cycle_sound_mode(), "level");
}

#[test]
fn list_scrolls_to_cursor() {
    let mut s = UiSelection::new();
    s.list_cursor = 16;
    s.ensure_list_cursor_visible(5);
    assert_eq!(s.list_scroll, 12);
    s.effect = "sound_viz".to_string();
    s.ensure_list_cursor_visible(5);
    assert_eq!(s.list_scroll, 14);
    s.list_cursor = 2;
    s.ensure_list_cursor_visible(5);
    assert_eq!(s.list_scroll, 2);
    s.ensure_list_cursor_visible(0);
    assert_eq!(s.list_scroll, 2);
}

#[test]
fn drawn_list_rows() {
    let mut s = UiSelection::new();
    s.effect = "screen".to_string();
    s.list_cursor = 2;
    let rows = s.list_rows_drawn(1, 6);
    assert_eq!(
        rows,
        vec![
            ListRow { idx: 0, y: 1, height: 1, active: false, cursor: false },
            ListRow { idx: 1, y: 2, height: 3, active: true, cursor: false },
            ListRow { idx: 2, y: 5, height: 1, active: false, cursor: true },
            ListRow { idx: 3, y: 6, height: 1, active: false, cursor: false },
        ]
    );
    s.list_scroll = 16;
    assert_eq!(s.list_rows_drawn(0, 10).len(), 1);
    s.effect = "off".to_string();
    s.list_scroll = 0;
    assert_eq!(s.list_rows_drawn(0, 2), vec![]);
    assert_eq!(s.list_rows_drawn(65534, 10).len(), 1);
}

#[test]
fn panel_texts() {
    assert_eq!(status_line(true, 1920, 1080, "x"), "OK · 1920x1080");
    assert_eq!(status_line(true, 0, 0, "#ff3300"), "OK · #ff3300");
    assert_eq!(status_line(false, 1920, 1080, "x"), "serial disconnected");
    assert_eq!(fps_preset_label(1, true), "[30]");
    assert_eq!(fps_preset_label(3, false), " 60 ");
    assert_eq!(color_preset_label(0, true), "[#ff3300]");
    assert_eq!(color_preset_label(7, false), " rainbow ");
    assert_eq!(pick_hint(""), "");
    assert_eq!(pick_hint("1"), " → 1");
    assert_eq!(label_style(true, true, true), LabelStyle::Active);
    assert_eq!(label_style(false, true, true), LabelStyle::ScreenSync);
    assert_eq!(label_style(false, true, false), LabelStyle::Cursor);
    assert_eq!(label_style(false, false, false), LabelStyle::Plain);
}

#[test]
fn fps_step_back_undoes_step() {
    let mut s = UiSelection::new();
    for _ in 0..4 {
        let start = s.fps_idx;
        s.cycle_fps(1);
        s.cycle_fps(-1);
        assert_eq!(s.fps_idx, start);
        s.cycle_fps(1);
    }
}
