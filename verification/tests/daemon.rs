use hyper_sync::config::{ConfigError, EffectMode, RuntimeConfig, SoundMode, DEFAULT_BRIGHTNESS_BITS};
use hyper_sync::daemon::{
    apply_patch, daemon_running, file_change_reload, handle_request, last_reload, persist_action, ConfigPatch,
    DaemonStatus, IpcRequest, PersistAction, ReloadMsg, SupervisorState,
};

fn empty_patch() -> ConfigPatch {
    ConfigPatch {
        mode: None,
        brightness_bits: None,
        color: None,
        fps: None,
        speed_bits: None,
        sound_mode: None,
        reactivity_bits: None,
        sensitivity_bits: None,
    }
}

#[test]
fn status_from_config() {
    let c = RuntimeConfig::default();
    let st = DaemonStatus::from_config(&c);
    assert!(st.running);
    assert_eq!(st.effect, "screen");
    assert_eq!(st.brightness_bits, DEFAULT_BRIGHTNESS_BITS);
    assert_eq!(st.fps, 30);
    assert!(st.serial_ok);
    assert_eq!(st.detail, "");
    assert_eq!(st.color, "ff3300");
    assert_eq!((st.width, st.height), (0, 0));
    assert!(st.last_error.is_none());
}

#[test]
fn patch_sets_fields() {
    let mut c = RuntimeConfig::default();
    let p = ConfigPatch {
        mode: Some("candle".to_string()),
        brightness_bits: Some(0.5f32.to_bits()),
        color: Some("##00ff88".to_string()),
        fps: Some(0),
        speed_bits: Some(2.0f32.to_bits()),
        sound_mode: Some("level".to_string()),
        reactivity_bits: Some(0.7f32.to_bits()),
        sensitivity_bits: Some(0.1f32.to_bits()),
    };
    assert!(apply_patch(&mut c, &p).is_ok());
    assert_eq!(c.effect.mode, EffectMode::Candle);
    assert_eq!(f32::from_bits(c.effect.brightness_bits), 0.5);
    assert_eq!(c.solid.color, "00ff88");
    assert_eq!(c.effect.fps, 1);
    assert_eq!(f32::from_bits(c.effect.speed_bits), 2.0);
    assert_eq!(c.audio.sound_mode, SoundMode::Level);
    assert_eq!(f32::from_bits(c.audio.reactivity_bits), 0.7);
    assert_eq!(f32::from_bits(c.audio.sensitivity_bits), 0.1);
}

#[test]
fn rainbow_patch_is_solid_rainbow() {
    let mut c = RuntimeConfig::default();
    let p = ConfigPatch { mode: Some("rainbow".to_string()), ..empty_patch() };
    assert!(apply_patch(&mut c, &p).is_ok());
    assert_eq!(c.effect.mode, EffectMode::Solid);
    assert_eq!(c.solid.color, "rainbow");
}

#[test]
fn unknown_mode_changes_nothing() {
    let mut c = RuntimeConfig::default();
    let p = ConfigPatch { mode: Some("disco".to_string()), fps: Some(60), ..empty_patch() };
    match apply_patch(&mut c, &p) {
        Err(ConfigError::UnknownMode(n)) => assert_eq!(n, "disco"),
        other => panic!("unexpected {:?}", other),
    }
    assert_eq!(c.effect.mode, EffectMode::Screen);
    assert_eq!(c.effect.fps, 30);
}

#[test]
fn unknown_sound_mode_keeps_earlier_steps() {
    let mut c = RuntimeConfig::default();
    let p = ConfigPatch {
        mode: Some("wave".to_string()),
        fps: Some(60),
        sound_mode: Some("loud".to_string()),
        reactivity_bits: Some(0.9f32.to_bits()),
        ..empty_patch()
    };
    match apply_patch(&mut c, &p) {
        Err(ConfigError::UnknownSoundMode(n)) => assert_eq!(n, "loud"),
        other => panic!("unexpected {:?}", other),
    }
    assert_eq!(c.effect.mode, EffectMode::Wave);
    assert_eq!(c.effect.fps, 60);
    assert_eq!(f32::from_bits(c.audio.reactivity_bits), 0.3);
}

#[test]
fn persisting_a_patch() {
    assert_eq!(persist_action(true, EffectMode::Off, EffectMode::Solid), PersistAction::SaveAndRestart);
    assert_eq!(persist_action(true, EffectMode::Screen, EffectMode::ScreenCenter), PersistAction::Save);
    assert_eq!(persist_action(true, EffectMode::Solid, EffectMode::Solid), PersistAction::Save);
    assert_eq!(persist_action(false, EffectMode::Off, EffectMode::Solid), PersistAction::Save);
}

#[test]
fn external_edits() {
    assert_eq!(file_change_reload("solid", EffectMode::Solid, "solid", EffectMode::Solid), None);
    assert_eq!(file_change_reload("solid", EffectMode::Solid, "candle", EffectMode::Candle), Some(ReloadMsg::Force));
    assert_eq!(
        file_change_reload("screen:0:a", EffectMode::Screen, "screen_center:0:a", EffectMode::ScreenCenter),
        Some(ReloadMsg::Apply)
    );
    assert_eq!(
        file_change_reload("screen:0:a", EffectMode::Screen, "screen:1:a", EffectMode::Screen),
        Some(ReloadMsg::Apply)
    );
}

#[test]
fn supervisor_restarts_only_on_change() {
    let mut c = RuntimeConfig::default();
    let mut s = SupervisorState::new(c.effect.mode);
    assert!(s.needs_restart(&c));
    s.record_start(&c);
    assert!(!s.needs_restart(&c));
    c.screen.monitor = 1;
    assert!(s.needs_restart(&c));
    s.record_start(&c);
    assert!(!s.needs_restart(&c));
    s.record_stop();
    assert!(s.needs_restart(&c));
    assert_eq!(s.last_effect_key, "screen:1:config/layout.toml");
}

#[test]
fn only_the_last_reload_counts() {
    assert_eq!(last_reload(&vec![]), None);
    assert_eq!(last_reload(&vec![ReloadMsg::Force, ReloadMsg::Apply]), Some(ReloadMsg::Apply));
}

#[test]
fn running_when_status_answers_ok() {
    assert!(daemon_running(Some(true)));
    assert!(!daemon_running(Some(false)));
    assert!(!daemon_running(None));
}

#[test]
fn status_request_reports_config() {
    let mut c = RuntimeConfig::default();
    c.effect.mode = EffectMode::Fire;
    c.audio.sound_mode = SoundMode::Balance;
    let mut st = DaemonStatus::from_config(&RuntimeConfig::default());
    let h = handle_request(&mut c, &mut st, IpcRequest::Status).unwrap();
    assert!(!h.save && h.notify.is_none() && !h.shutdown);
    assert!(h.response.ok && h.response.error.is_none());
    let s = h.response.status.unwrap();
    assert_eq!(s.effect, "fire");
    assert_eq!(s.sound_mode, "balance");
    assert_eq!(st.effect, "fire");
}

#[test]
fn stop_then_status_reports_off() {
    let mut c = RuntimeConfig::default();
    let mut st = DaemonStatus::from_config(&c);
    let h = handle_request(&mut c, &mut st, IpcRequest::Stop).unwrap();
    assert!(h.save);
    assert_eq!(h.notify, Some(ReloadMsg::Force));
    assert_eq!(c.effect.mode, EffectMode::Off);
    let h = handle_request(&mut c, &mut st, IpcRequest::Status).unwrap();
    assert_eq!(h.response.status.unwrap().effect, "off");
}

#[test]
fn other_requests() {
    let mut c = RuntimeConfig::default();
    let mut st = DaemonStatus::from_config(&c);
    let h = handle_request(&mut c, &mut st, IpcRequest::Restart).unwrap();
    assert_eq!((h.save, h.notify, h.shutdown), (false, Some(ReloadMsg::Force), false));
    let h = handle_request(&mut c, &mut st, IpcRequest::ReselectScreen).unwrap();
    assert_eq!((h.save, h.notify, h.shutdown), (false, Some(ReloadMsg::ReselectScreen), false));
    let h = handle_request(&mut c, &mut st, IpcRequest::Quit).unwrap();
    assert_eq!((h.save, h.notify, h.shutdown), (false, None, true));
    let mut other = RuntimeConfig::default();
    other.effect.mode = EffectMode::Pulse;
    let h = handle_request(&mut c, &mut st, IpcRequest::SetConfig { config: other }).unwrap();
    assert_eq!((h.save, h.notify, h.shutdown), (true, Some(ReloadMsg::Force), false));
    assert_eq!(c.effect.mode, EffectMode::Pulse);
}

#[test]
fn patch_requests() {
    let mut c = RuntimeConfig::default();
    let mut st = DaemonStatus::from_config(&c);
    let p = ConfigPatch { mode: Some("screen_center".to_string()), ..empty_patch() };
    let h = handle_request(&mut c, &mut st, IpcRequest::Patch(p)).unwrap();
    assert!(h.save);
    assert_eq!(h.notify, None);
    assert_eq!(h.response.status.unwrap().effect, "screen_center");
    let p = ConfigPatch { mode: Some("solid".to_string()), ..empty_patch() };
    let h = handle_request(&mut c, &mut st, IpcRequest::Patch(p)).unwrap();
    assert_eq!(h.notify, Some(ReloadMsg::Force));
    let p = ConfigPatch { mode: Some("bogus".to_string()), ..empty_patch() };
    assert!(matches!(handle_request(&mut c, &mut st, IpcRequest::Patch(p)), Err(ConfigError::UnknownMode(_))));
    assert_eq!(c.effect.mode, EffectMode::Solid);
    assert_eq!(st.effect, "solid");
}

#[test]
fn frame_notes() {
    let mut c = RuntimeConfig::default();
    let mut st = DaemonStatus::from_config(&c);
    st.serial_ok = false;
    st.note_solid_frame(&c);
    assert!(st.serial_ok);
    assert_eq!(st.detail, "#ff3300");
    c.solid.color = "RAINBOW".to_string();
    st.note_solid_frame(&c);
    assert_eq!(st.detail, "rainbow");
    assert_eq!(st.color, "RAINBOW");
    st.note_effect_frame(&c, "candle");
    assert_eq!(st.detail, "candle");
    assert_eq!(st.speed_bits, c.effect.speed_bits);
    st.note_sound_frame(&c, 0.25f32.to_bits());
    assert_eq!(st.detail, "sound_viz");
    assert_eq!(f32::from_bits(st.audio_level_bits), 0.25);
    st.note_screen_frame(&c, 1920, 1080, None);
    assert_eq!(st.detail, "1920x1080");
    assert_eq!((st.width, st.height), (1920, 1080));
    assert_eq!(f32::from_bits(st.audio_level_bits), 0.25);
    st.clear_screen();
    assert_eq!((st.width, st.height, st.detail.as_str()), (0, 0, ""));
    st.last_error = Some("x".to_string());
    st.note_effect_start(&c);
    assert!(st.last_error.is_none());
    let d = st.duplicate();
    assert_eq!(d.effect, st.effect);
}

#[test]
fn empty_patch_changes_nothing() {
    let mut c = RuntimeConfig::default();
    assert!(apply_patch(&mut c, &empty_patch()).is_ok());
    assert_eq!(c.effect_key(), RuntimeConfig::default().effect_key());
    assert_eq!(c.solid.color, "ff3300");
    assert_eq!(c.effect.fps, 30);
}

#[test]
fn same_patch_twice_is_same_as_once() {
    let p = ConfigPatch {
        mode: Some("rainbow".to_string()),
        color: Some("#123456".to_string()),
        fps: Some(0),
        sound_mode: Some("balance".to_string()),
        ..empty_patch()
    };
    let mut once = RuntimeConfig::default();
    apply_patch(&mut once, &p).unwrap();
    let mut twice = RuntimeConfig::default();
    apply_patch(&mut twice, &p).unwrap();
    apply_patch(&mut twice, &p).unwrap();
    assert_eq!(once.effect.mode, twice.effect.mode);
    assert_eq!(once.solid.color, twice.solid.color);
    assert_eq!(once.solid.color, "123456");
    assert_eq!(once.effect.fps, twice.effect.fps);
    assert_eq!(once.audio.sound_mode, twice.audio.sound_mode);
}
