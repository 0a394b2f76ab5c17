//! Decisions of the daemon: the status it reports, how an IPC patch changes
//! the configuration, when a change is saved or restarts the effect, how an
//! external edit of the configuration file is handled, and when the
//! supervisor restarts the running effect.

use vstd::prelude::*;
use crate::color::{is_rainbow_color, rainbow_chars, spec_is_rainbow};
use crate::config::{
    ConfigError, ConfigModel, EffectMode, RuntimeConfig, SoundMode, mode_name, parse_mode,
    parse_sound_mode, sound_mode_name, spec_effect_key, spec_parse_mode, spec_parse_sound_mode,
};
use crate::text::{decimal, owned, push_decimal, push_str, str_eq};
use vstd::string::StrSliceExecFns;

verus! {

/// What the daemon reports to its clients. Float values are carried as
/// `f32` bit patterns.
#[derive(Debug)]
pub struct DaemonStatus {
    pub running: bool,
    pub effect: String,
    pub brightness_bits: u32,
    pub fps: u32,
    pub speed_bits: u32,
    pub serial_ok: bool,
    pub detail: String,
    pub color: String,
    pub width: u32,
    pub height: u32,
    pub last_error: Option<String>,
    pub sound_mode: String,
    pub reactivity_bits: u32,
    pub sensitivity_bits: u32,
    pub audio_level_bits: u32,
}

impl DaemonStatus {
    /// The status of a daemon that has just loaded `cfg`: running, serial
    /// assumed fine, the effect, brightness, frame rate and colour of `cfg`,
    /// and every other field empty or zero.
    pub fn from_config(cfg: &RuntimeConfig) -> (st: DaemonStatus)
        ensures
            st.running,
            st.effect@ == mode_name(cfg.effect.mode),
            st.brightness_bits == cfg.effect.brightness_bits,
            st.fps == cfg.effect.fps,
            st.speed_bits == 0,
            st.serial_ok,
            st.detail@.len() == 0,
            st.color@ == cfg.solid.color@,
            st.width == 0,
            st.height == 0,
            st.last_error is None,
            st.sound_mode@.len() == 0,
            st.reactivity_bits == 0,
            st.sensitivity_bits == 0,
            st.audio_level_bits == 0,
    {
        DaemonStatus {
            running: true,
            effect: owned(cfg.effect.mode.as_str()),
            brightness_bits: cfg.effect.brightness_bits,
            fps: cfg.effect.fps,
            speed_bits: 0,
            serial_ok: true,
            detail: String::new(),
            color: cfg.solid.color.clone(),
            width: 0,
            height: 0,
            last_error: None,
            sound_mode: String::new(),
            reactivity_bits: 0,
            sensitivity_bits: 0,
            audio_level_bits: 0,
        }
    }

    /// Copies the configured effect, brightness, frame rate, speed, colour
    /// and audio settings into the status (answer to a status request and
    /// to a patch); the other fields are kept.
    pub fn sync_with_config(&mut self, cfg: &RuntimeConfig)
        ensures
            final(self)@ == synced_status(old(self)@, cfg@),
            final(self).effect@ == mode_name(cfg.effect.mode),
            final(self).brightness_bits == cfg.effect.brightness_bits,
            final(self).fps == cfg.effect.fps,
            final(self).speed_bits == cfg.effect.speed_bits,
            final(self).color@ == cfg.solid.color@,
            final(self).sound_mode@ == sound_mode_name(cfg.audio.sound_mode),
            final(self).reactivity_bits == cfg.audio.reactivity_bits,
            final(self).sensitivity_bits == cfg.audio.sensitivity_bits,
            final(self).running == old(self).running,
            final(self).serial_ok == old(self).serial_ok,
            final(self).detail == old(self).detail,
            final(self).width == old(self).width,
            final(self).height == old(self).height,
            final(self).last_error == old(self).last_error,
            final(self).audio_level_bits == old(self).audio_level_bits,
    {
        self.effect = owned(cfg.effect.mode.as_str());
        self.brightness_bits = cfg.effect.brightness_bits;
        self.fps = cfg.effect.fps;
        self.speed_bits = cfg.effect.speed_bits;
        self.color = cfg.solid.color.clone();
        self.sound_mode = owned(cfg.audio.sound_mode.as_str());
        self.reactivity_bits = cfg.audio.reactivity_bits;
        self.sensitivity_bits = cfg.audio.sensitivity_bits;
    }

    /// Records that the supervisor starts the effect of `cfg`: effect,
    /// brightness, frame rate and colour from `cfg`, last error cleared; the
    /// other fields are kept.
    pub fn note_effect_start(&mut self, cfg: &RuntimeConfig)
        ensures
            final(self).effect@ == mode_name(cfg.effect.mode),
            final(self).brightness_bits == cfg.effect.brightness_bits,
            final(self).fps == cfg.effect.fps,
            final(self).color@ == cfg.solid.color@,
            final(self).last_error is None,
            final(self).running == old(self).running,
            final(self).speed_bits == old(self).speed_bits,
            final(self).serial_ok == old(self).serial_ok,
            final(self).detail == old(self).detail,
            final(self).width == old(self).width,
            final(self).height == old(self).height,
            final(self).sound_mode == old(self).sound_mode,
            final(self).reactivity_bits == old(self).reactivity_bits,
            final(self).sensitivity_bits == old(self).sensitivity_bits,
            final(self).audio_level_bits == old(self).audio_level_bits,
    {
        self.effect = owned(cfg.effect.mode.as_str());
        self.brightness_bits = cfg.effect.brightness_bits;
        self.fps = cfg.effect.fps;
        self.color = cfg.solid.color.clone();
        self.last_error = None;
    }
}

/// The mathematical value of a status: every field, strings as character
/// sequences.
pub struct StatusModel {
    pub running: bool,
    pub effect: Seq<char>,
    pub brightness_bits: u32,
    pub fps: u32,
    pub speed_bits: u32,
    pub serial_ok: bool,
    pub detail: Seq<char>,
    pub color: Seq<char>,
    pub width: u32,
    pub height: u32,
    pub last_error: Option<Seq<char>>,
    pub sound_mode: Seq<char>,
    pub reactivity_bits: u32,
    pub sensitivity_bits: u32,
    pub audio_level_bits: u32,
}

impl View for DaemonStatus {
    type V = StatusModel;

    open spec fn view(&self) -> StatusModel {
        StatusModel {
            running: self.running,
            effect: self.effect@,
            brightness_bits: self.brightness_bits,
            fps: self.fps,
            speed_bits: self.speed_bits,
            serial_ok: self.serial_ok,
            detail: self.detail@,
            color: self.color@,
            width: self.width,
            height: self.height,
            last_error: match self.last_error {
                Some(e) => Some(e@),
                None => None,
            },
            sound_mode: self.sound_mode@,
            reactivity_bits: self.reactivity_bits,
            sensitivity_bits: self.sensitivity_bits,
            audio_level_bits: self.audio_level_bits,
        }
    }
}

/// `s` after copying the configured effect, brightness, frame rate, speed,
/// colour and audio settings of `c` into it.
pub open spec fn synced_status(s: StatusModel, c: ConfigModel) -> StatusModel {
    StatusModel {
        effect: mode_name(c.mode),
        brightness_bits: c.brightness_bits,
        fps: c.fps,
        speed_bits: c.speed_bits,
        color: c.color,
        sound_mode: sound_mode_name(c.sound_mode),
        reactivity_bits: c.reactivity_bits,
        sensitivity_bits: c.sensitivity_bits,
        ..s
    }
}

impl DaemonStatus {
    /// A field-by-field copy.
    pub fn duplicate(&self) -> (r: DaemonStatus)
        ensures
            r@ == self@,
    {
        DaemonStatus {
            running: self.running,
            effect: self.effect.clone(),
            brightness_bits: self.brightness_bits,
            fps: self.fps,
            speed_bits: self.speed_bits,
            serial_ok: self.serial_ok,
            detail: self.detail.clone(),
            color: self.color.clone(),
            width: self.width,
            height: self.height,
            last_error: match &self.last_error {
                Some(e) => Some(e.clone()),
                None => None,
            },
            sound_mode: self.sound_mode.clone(),
            reactivity_bits: self.reactivity_bits,
            sensitivity_bits: self.sensitivity_bits,
            audio_level_bits: self.audio_level_bits,
        }
    }
}

/// What a solid-colour frame shows as detail: `rainbow` for the rainbow
/// colour, else the colour after a `#`.
pub open spec fn solid_detail(color: Seq<char>) -> Seq<char> {
    if spec_is_rainbow(color) {
        rainbow_chars()
    } else {
        seq!['#'] + color
    }
}

impl DaemonStatus {
    /// After a solid-colour frame was sent: brightness, frame rate and
    /// colour from `cfg`, serial fine, and the colour as detail (see
    /// [`solid_detail`]).
    pub fn note_solid_frame(&mut self, cfg: &RuntimeConfig)
        ensures
            final(self)@ == (StatusModel {
                brightness_bits: cfg.effect.brightness_bits,
                fps: cfg.effect.fps,
                serial_ok: true,
                detail: solid_detail(cfg.solid.color@),
                color: cfg.solid.color@,
                ..old(self)@
            }),
    {
        self.brightness_bits = cfg.effect.brightness_bits;
        self.fps = cfg.effect.fps;
        self.serial_ok = true;
        proof { reveal_strlit("rainbow"); reveal_strlit("#"); }
        if is_rainbow_color(cfg.solid.color.as_str()) {
            let w = "rainbow";
            assert(w@ =~= rainbow_chars());
            self.detail = owned(w);
        } else {
            let h = "#";
            let mut d = owned(h);
            push_str(&mut d, cfg.solid.color.as_str());
            assert(d@ =~= seq!['#'] + cfg.solid.color@);
            self.detail = d;
        }
        self.color = cfg.solid.color.clone();
    }

    /// After a frame of an animated or candle effect was sent: brightness,
    /// frame rate, speed and colour from `cfg`, serial fine, and `detail`.
    pub fn note_effect_frame(&mut self, cfg: &RuntimeConfig, detail: &str)
        ensures
            final(self)@ == (StatusModel {
                brightness_bits: cfg.effect.brightness_bits,
                fps: cfg.effect.fps,
                speed_bits: cfg.effect.speed_bits,
                serial_ok: true,
                detail: detail@,
                color: cfg.solid.color@,
                ..old(self)@
            }),
    {
        self.brightness_bits = cfg.effect.brightness_bits;
        self.fps = cfg.effect.fps;
        self.speed_bits = cfg.effect.speed_bits;
        self.serial_ok = true;
        self.detail = owned(detail);
        self.color = cfg.solid.color.clone();
    }

    /// After a frame of the sound visualiser was sent: brightness, frame
    /// rate and colour from `cfg`, serial fine, detail `sound_viz`, and the
    /// audio level.
    pub fn note_sound_frame(&mut self, cfg: &RuntimeConfig, level_bits: u32)
        ensures
            final(self)@ == (StatusModel {
                brightness_bits: cfg.effect.brightness_bits,
                fps: cfg.effect.fps,
                serial_ok: true,
                detail: seq!['s', 'o', 'u', 'n', 'd', '_', 'v', 'i', 'z'],
                color: cfg.solid.color@,
                audio_level_bits: level_bits,
                ..old(self)@
            }),
    {
        self.brightness_bits = cfg.effect.brightness_bits;
        self.fps = cfg.effect.fps;
        self.serial_ok = true;
        let d = "sound_viz";
        proof { reveal_strlit("sound_viz"); assert(d@ =~= seq!['s', 'o', 'u', 'n', 'd', '_', 'v', 'i', 'z']); }
        self.detail = owned(d);
        self.color = cfg.solid.color.clone();
        self.audio_level_bits = level_bits;
    }

    /// After a captured screen frame was sent: brightness and frame rate
    /// from `cfg`, the frame's size, serial fine, the size as detail
    /// (`<width>x<height>`), and the audio level when one is measured.
    pub fn note_screen_frame(&mut self, cfg: &RuntimeConfig, width: u32, height: u32, level_bits: Option<u32>)
        ensures
            final(self)@ == (StatusModel {
                brightness_bits: cfg.effect.brightness_bits,
                fps: cfg.effect.fps,
                width: width,
                height: height,
                serial_ok: true,
                detail: decimal(width as nat) + seq!['x'] + decimal(height as nat),
                audio_level_bits: match level_bits {
                    Some(l) => l,
                    None => old(self).audio_level_bits,
                },
                ..old(self)@
            }),
    {
        self.brightness_bits = cfg.effect.brightness_bits;
        self.fps = cfg.effect.fps;
        self.width = width;
        self.height = height;
        self.serial_ok = true;
        let mut d = String::new();
        push_decimal(&mut d, width);
        proof { reveal_strlit("x"); }
        push_str(&mut d, "x");
        push_decimal(&mut d, height);
        assert(d@ =~= decimal(width as nat) + seq!['x'] + decimal(height as nat));
        self.detail = d;
        if let Some(l) = level_bits {
            self.audio_level_bits = l;
        }
    }

    /// When screen capture stops: no frame size and no detail.
    pub fn clear_screen(&mut self)
        ensures
            final(self)@ == (StatusModel { width: 0, height: 0, detail: Seq::empty(), ..old(self)@ }),
    {
        self.width = 0;
        self.height = 0;
        self.detail = String::new();
    }
}

/// Sent to the daemon's main loop when the configuration changed.
#[derive(Debug, Clone, Copy, PartialEq, Eq, Structural)]
pub enum ReloadMsg {
    /// Restart the effect only if its key changed.
    Apply,
    /// Restart the effect even when its mode is unchanged.
    Force,
    /// Forget the screen-capture permission and capture again.
    ReselectScreen,
}

/// The changes an IPC patch asks for. Float values arrive as the bit
/// patterns of values already clamped to their ranges (brightness,
/// reactivity and sensitivity to `[0, 1]`, speed to `[0.1, 5]`).
#[derive(Debug)]
pub struct ConfigPatch {
    pub mode: Option<String>,
    pub brightness_bits: Option<u32>,
    pub color: Option<String>,
    pub fps: Option<u32>,
    pub speed_bits: Option<u32>,
    pub sound_mode: Option<String>,
    pub reactivity_bits: Option<u32>,
    pub sensitivity_bits: Option<u32>,
}

/// `s` without its leading `#` characters.
pub open spec fn trim_hash_chars(s: Seq<char>) -> Seq<char>
    decreases s.len(),
{
    if s.len() > 0 && s[0] == '#' {
        trim_hash_chars(s.drop_first())
    } else {
        s
    }
}

fn trim_leading_hashes(s: &str) -> (r: String)
    ensures
        r@ == trim_hash_chars(s@),
{
    let n = s.unicode_len();
    let mut i: usize = 0;
    assert(s@.skip(0) =~= s@);
    while i < n && s.get_char(i) == '#'
        invariant
            n == s@.len(),
            i <= n,
            trim_hash_chars(s@.skip(i as int)) == trim_hash_chars(s@),
        decreases n - i,
    {
        assert(s@.skip(i as int).drop_first() =~= s@.skip(i + 1));
        i += 1;
    }
    assert(trim_hash_chars(s@.skip(i as int)) == s@.skip(i as int));
    let mut r = String::new();
    let mut k: usize = i;
    while k < n
        invariant
            n == s@.len(),
            i <= k <= n,
            r@ == s@.subrange(i as int, k as int),
        decreases n - k,
    {
        crate::text::push_char(&mut r, s.get_char(k));
        assert(s@.subrange(i as int, k + 1) =~= s@.subrange(i as int, k as int).push(s@[k as int]));
        k += 1;
    }
    assert(s@.subrange(i as int, n as int) =~= s@.skip(i as int));
    r
}

/// First step of a patch: the mode. `rainbow` selects the solid mode with
/// the rainbow colour; any other name must name a mode.
pub open spec fn patch_mode_step(m: ConfigModel, p: ConfigPatch) -> Option<ConfigModel> {
    match p.mode {
        None => Some(m),
        Some(name) => if name@ == rainbow_chars() {
            Some(ConfigModel { mode: EffectMode::Solid, color: rainbow_chars(), ..m })
        } else {
            match spec_parse_mode(name@) {
                Some(x) => Some(ConfigModel { mode: x, ..m }),
                None => None,
            }
        },
    }
}

/// Second step: brightness, colour (without leading `#`), frame rate (at
/// least 1) and speed.
pub open spec fn patch_plain_step(m: ConfigModel, p: ConfigPatch) -> ConfigModel {
    ConfigModel {
        brightness_bits: match p.brightness_bits { Some(b) => b, None => m.brightness_bits },
        color: match p.color { Some(c) => trim_hash_chars(c@), None => m.color },
        fps: match p.fps { Some(f) => if f < 1 { 1 } else { f }, None => m.fps },
        speed_bits: match p.speed_bits { Some(s) => s, None => m.speed_bits },
        ..m
    }
}

/// Third step: the sound mode, which must name a sound mode.
pub open spec fn patch_sound_step(m: ConfigModel, p: ConfigPatch) -> Option<ConfigModel> {
    match p.sound_mode {
        None => Some(m),
        Some(name) => match spec_parse_sound_mode(name@) {
            Some(x) => Some(ConfigModel { sound_mode: x, ..m }),
            None => None,
        },
    }
}

/// Last step: reactivity and sensitivity.
pub open spec fn patch_audio_step(m: ConfigModel, p: ConfigPatch) -> ConfigModel {
    ConfigModel {
        reactivity_bits: match p.reactivity_bits { Some(r) => r, None => m.reactivity_bits },
        sensitivity_bits: match p.sensitivity_bits { Some(s) => s, None => m.sensitivity_bits },
        ..m
    }
}

/// The configuration after applying `p` to `m`, step by step; a step that
/// fails stops the patch, leaving the earlier steps applied.
pub open spec fn spec_patched(m: ConfigModel, p: ConfigPatch) -> ConfigModel {
    match patch_mode_step(m, p) {
        None => m,
        Some(m1) => {
            let m2 = patch_plain_step(m1, p);
            match patch_sound_step(m2, p) {
                None => m2,
                Some(m3) => patch_audio_step(m3, p),
            }
        },
    }
}

/// Whether every step of `p` succeeds on `m`.
pub open spec fn patch_succeeds(m: ConfigModel, p: ConfigPatch) -> bool {
    match patch_mode_step(m, p) {
        None => false,
        Some(m1) => patch_sound_step(patch_plain_step(m1, p), p) is Some,
    }
}

/// Applies an IPC patch to the configuration. A mode name that is neither
/// `rainbow` nor a mode is refused before anything changes; an unknown
/// sound mode is refused after the mode, brightness, colour, frame rate and
/// speed have been applied.
pub fn apply_patch(cfg: &mut RuntimeConfig, p: &ConfigPatch) -> (r: Result<(), ConfigError>)
    ensures
        final(cfg)@ == spec_patched(old(cfg)@, *p),
        r is Ok <==> patch_succeeds(old(cfg)@, *p),
        patch_mode_step(old(cfg)@, *p) is None ==> (r matches Err(ConfigError::UnknownMode(n))
            && p.mode matches Some(s) && n@ == s@),
        patch_mode_step(old(cfg)@, *p) is Some && !patch_succeeds(old(cfg)@, *p) ==> (r matches Err(
            ConfigError::UnknownSoundMode(n),
        ) && p.sound_mode matches Some(s) && n@ == s@),
{
    proof { reveal_strlit("rainbow"); }
    match &p.mode {
        None => {},
        Some(name) => {
            let word = "rainbow";
            assert(word@ =~= rainbow_chars());
            if str_eq(name.as_str(), word) {
                cfg.effect.mode = EffectMode::Solid;
                cfg.solid.color = owned(word);
            } else {
                match parse_mode(name.as_str()) {
                    Ok(m) => {
                        cfg.effect.mode = m;
                    },
                    Err(e) => {
                        return Err(e);
                    },
                }
            }
        },
    }
    if let Some(b) = p.brightness_bits {
        cfg.effect.brightness_bits = b;
    }
    if let Some(c) = &p.color {
        cfg.solid.color = trim_leading_hashes(c.as_str());
    }
    if let Some(f) = p.fps {
        cfg.effect.fps = if f < 1 { 1 } else { f };
    }
    if let Some(s) = p.speed_bits {
        cfg.effect.speed_bits = s;
    }
    if let Some(sm) = &p.sound_mode {
        match parse_sound_mode(sm.as_str()) {
            Ok(m) => {
                cfg.audio.sound_mode = m;
            },
            Err(e) => {
                return Err(e);
            },
        }
    }
    if let Some(r) = p.reactivity_bits {
        cfg.audio.reactivity_bits = r;
    }
    if let Some(s) = p.sensitivity_bits {
        cfg.audio.sensitivity_bits = s;
    }
    Ok(())
}

/// What the daemon does with a configuration after a successful patch.
#[derive(Debug, Clone, Copy, PartialEq, Eq, Structural)]
pub enum PersistAction {
    /// Save the file; the running effect picks the change up itself.
    Save,
    /// Save the file and restart the effect.
    SaveAndRestart,
}

/// Restart only when the patch named a mode, the mode changed, and the
/// change is not between the two screen modes.
pub open spec fn spec_persist_action(mode_given: bool, old_mode: EffectMode, new_mode: EffectMode) -> PersistAction {
    let screen_pair = (old_mode == EffectMode::Screen || old_mode == EffectMode::ScreenCenter)
        && (new_mode == EffectMode::Screen || new_mode == EffectMode::ScreenCenter);
    if mode_given && old_mode != new_mode && !screen_pair {
        PersistAction::SaveAndRestart
    } else {
        PersistAction::Save
    }
}

/// How a successful patch is persisted; see [`spec_persist_action`].
pub fn persist_action(mode_given: bool, old_mode: EffectMode, new_mode: EffectMode) -> (a: PersistAction)
    ensures
        a == spec_persist_action(mode_given, old_mode, new_mode),
{
    if mode_given && old_mode != new_mode {
        if old_mode.is_screen() && new_mode.is_screen() {
            PersistAction::Save
        } else {
            PersistAction::SaveAndRestart
        }
    } else {
        PersistAction::Save
    }
}

/// Reaction to the configuration file changing on disk: nothing when the
/// effect key and mode in memory match the file's, otherwise a forced
/// restart when the mode changes other than between the screen modes, else
/// an ordinary apply.
pub open spec fn spec_file_change_reload(
    mem_key: Seq<char>,
    mem_mode: EffectMode,
    file_key: Seq<char>,
    file_mode: EffectMode,
) -> Option<ReloadMsg> {
    if file_key == mem_key && file_mode == mem_mode {
        None
    } else if mem_mode != file_mode && !((mem_mode == EffectMode::Screen || mem_mode
        == EffectMode::ScreenCenter) && (file_mode == EffectMode::Screen || file_mode
        == EffectMode::ScreenCenter)) {
        Some(ReloadMsg::Force)
    } else {
        Some(ReloadMsg::Apply)
    }
}

/// The reload message for an external edit; see [`spec_file_change_reload`].
pub fn file_change_reload(mem_key: &str, mem_mode: EffectMode, file_key: &str, file_mode: EffectMode) -> (r: Option<ReloadMsg>)
    ensures
        r == spec_file_change_reload(mem_key@, mem_mode, file_key@, file_mode),
{
    if str_eq(file_key, mem_key) && file_mode == mem_mode {
        return None;
    }
    if mem_mode != file_mode {
        if mem_mode.is_screen() && file_mode.is_screen() {
            Some(ReloadMsg::Apply)
        } else {
            Some(ReloadMsg::Force)
        }
    } else {
        Some(ReloadMsg::Apply)
    }
}

/// A client's request over the IPC socket.
#[derive(Debug)]
pub enum IpcRequest {
    /// Report the status.
    Status,
    /// Switch the effect off.
    Stop,
    /// Restart the running effect.
    Restart,
    /// Shut the daemon down.
    Quit,
    /// Forget the screen-capture permission and capture again.
    ReselectScreen,
    /// Replace the whole configuration.
    SetConfig { config: RuntimeConfig },
    /// Change some settings.
    Patch(ConfigPatch),
}

/// The daemon's answer to a request.
#[derive(Debug)]
pub struct IpcResponse {
    pub ok: bool,
    pub status: Option<DaemonStatus>,
    pub error: Option<String>,
}

/// What the daemon does after handling a request, in this order: save the
/// configuration file, send a reload message to its main loop, raise the
/// shutdown flag; then it writes `response` to the client. When one of the
/// first two fails, the client gets no answer.
#[derive(Debug)]
pub struct Handled {
    pub save: bool,
    pub notify: Option<ReloadMsg>,
    pub shutdown: bool,
    pub response: IpcResponse,
}

/// The configuration after request `req` on `c`, for a request that
/// succeeds; a failing patch leaves what [`spec_patched`] says.
pub open spec fn request_config(c: ConfigModel, req: IpcRequest) -> ConfigModel {
    match req {
        IpcRequest::Stop => ConfigModel { mode: EffectMode::Off, ..c },
        IpcRequest::SetConfig { config } => config@,
        IpcRequest::Patch(p) => spec_patched(c, p),
        _ => c,
    }
}

/// Whether request `req` on `c` is carried out: every request but a patch
/// that names an unknown mode or sound mode.
pub open spec fn request_succeeds(c: ConfigModel, req: IpcRequest) -> bool {
    match req {
        IpcRequest::Patch(p) => patch_succeeds(c, p),
        _ => true,
    }
}

/// Whether a successful request `req` on `c` saves the configuration file.
pub open spec fn request_saves(req: IpcRequest) -> bool {
    req is Stop || req is SetConfig || req is Patch
}

/// The reload message a successful request `req` on `c` sends.
pub open spec fn request_notify(c: ConfigModel, req: IpcRequest) -> Option<ReloadMsg> {
    match req {
        IpcRequest::Stop => Some(ReloadMsg::Force),
        IpcRequest::Restart => Some(ReloadMsg::Force),
        IpcRequest::ReselectScreen => Some(ReloadMsg::ReselectScreen),
        IpcRequest::SetConfig { .. } => Some(ReloadMsg::Force),
        IpcRequest::Patch(p) => if spec_persist_action(p.mode is Some, c.mode, spec_patched(c, p).mode)
            == PersistAction::SaveAndRestart {
            Some(ReloadMsg::Force)
        } else {
            None
        },
        _ => None,
    }
}

/// The status after a successful request `req` on `c`: a status request
/// and a patch copy the new configuration into it; the others leave it.
pub open spec fn request_status(s: StatusModel, c: ConfigModel, req: IpcRequest) -> StatusModel {
    match req {
        IpcRequest::Status => synced_status(s, c),
        IpcRequest::Patch(p) => synced_status(s, spec_patched(c, p)),
        _ => s,
    }
}

/// Handles one client request against the daemon's configuration and
/// status. A patch with an unknown mode or sound mode is refused with that
/// error (see [`apply_patch`] for what it changed before); the status is
/// then untouched and nothing is saved, sent or answered. Every other
/// request is answered `ok` with the status after it.
pub fn handle_request(cfg: &mut RuntimeConfig, st: &mut DaemonStatus, req: IpcRequest) -> (r: Result<Handled, ConfigError>)
    ensures
        final(cfg)@ == request_config(old(cfg)@, req),
        r is Ok <==> request_succeeds(old(cfg)@, req),
        r is Err ==> final(st)@ == old(st)@,
        req matches IpcRequest::Patch(p) ==> (!patch_succeeds(old(cfg)@, p) ==> (
            (patch_mode_step(old(cfg)@, p) is None ==> (r matches Err(ConfigError::UnknownMode(n))
                && p.mode matches Some(s) && n@ == s@))
            && (patch_mode_step(old(cfg)@, p) is Some ==> (r matches Err(ConfigError::UnknownSoundMode(n))
                && p.sound_mode matches Some(s) && n@ == s@)))),
        r matches Ok(h) ==> {
            &&& final(st)@ == request_status(old(st)@, old(cfg)@, req)
            &&& h.save == request_saves(req)
            &&& h.notify == request_notify(old(cfg)@, req)
            &&& h.shutdown == (req is Quit)
            &&& h.response.ok
            &&& h.response.error is None
            &&& h.response.status matches Some(s) && s@ == final(st)@
        },
{
    let ghost old_cfg = cfg@;
    let (save, notify, shutdown) = match req {
        IpcRequest::Status => {
            st.sync_with_config(cfg);
            (false, None, false)
        },
        IpcRequest::Stop => {
            cfg.effect.mode = EffectMode::Off;
            (true, Some(ReloadMsg::Force), false)
        },
        IpcRequest::Restart => (false, Some(ReloadMsg::Force), false),
        IpcRequest::ReselectScreen => (false, Some(ReloadMsg::ReselectScreen), false),
        IpcRequest::Quit => (false, None, true),
        IpcRequest::SetConfig { config } => {
            *cfg = config;
            (true, Some(ReloadMsg::Force), false)
        },
        IpcRequest::Patch(p) => {
            let old_mode = cfg.effect.mode;
            match apply_patch(cfg, &p) {
                Ok(()) => {},
                Err(e) => {
                    return Err(e);
                },
            }
            let action = persist_action(p.mode.is_some(), old_mode, cfg.effect.mode);
            st.sync_with_config(cfg);
            let notify = match action {
                PersistAction::SaveAndRestart => Some(ReloadMsg::Force),
                PersistAction::Save => None,
            };
            (true, notify, false)
        },
    };
    let response = IpcResponse { ok: true, status: Some(st.duplicate()), error: None };
    Ok(Handled { save, notify, shutdown, response })
}

/// Whether a daemon is running, from the answer to a status request
/// (`None` when there was no answer, or it could not be read): exactly when
/// it answered `ok`.
pub fn daemon_running(reply_ok: Option<bool>) -> (r: bool)
    ensures
        r == (reply_ok == Some(true)),
{
    match reply_ok {
        Some(ok) => ok,
        None => false,
    }
}

/// The supervisor's record of the effect it started.
#[derive(Debug)]
pub struct SupervisorState {
    /// Key of the effect last started.
    pub last_effect_key: String,
    /// Mode of the effect last started.
    pub last_mode: EffectMode,
    /// Whether an effect thread is held.
    pub running: bool,
}

impl SupervisorState {
    /// A supervisor that has started nothing yet, for a daemon whose
    /// configuration has mode `mode`.
    pub fn new(mode: EffectMode) -> (s: SupervisorState)
        ensures
            s.last_effect_key@.len() == 0,
            s.last_mode == mode,
            !s.running,
    {
        SupervisorState { last_effect_key: String::new(), last_mode: mode, running: false }
    }

    /// The effect must be (re)started: none runs, or the configured mode or
    /// effect key differs from the one started.
    pub open spec fn spec_needs_restart(&self, cfg: ConfigModel) -> bool {
        !self.running || cfg.mode != self.last_mode || spec_effect_key(cfg) != self.last_effect_key@
    }

    /// Whether the effect must be (re)started for `cfg`.
    pub fn needs_restart(&self, cfg: &RuntimeConfig) -> (r: bool)
        ensures
            r == self.spec_needs_restart(cfg@),
    {
        if !self.running || cfg.effect.mode != self.last_mode {
            return true;
        }
        let key = cfg.effect_key();
        !str_eq(key.as_str(), self.last_effect_key.as_str())
    }

    /// Records that the effect of `cfg` was started.
    pub fn record_start(&mut self, cfg: &RuntimeConfig)
        ensures
            final(self).last_effect_key@ == spec_effect_key(cfg@),
            final(self).last_mode == cfg.effect.mode,
            final(self).running,
    {
        self.last_effect_key = cfg.effect_key();
        self.last_mode = cfg.effect.mode;
        self.running = true;
    }

    /// Records that the effect thread was let go.
    pub fn record_stop(&mut self)
        ensures
            final(self).last_effect_key == old(self).last_effect_key,
            final(self).last_mode == old(self).last_mode,
            !final(self).running,
    {
        self.running = false;
    }
}

/// Of the reload messages queued since the last look, the daemon acts on the
/// last one only.
pub fn last_reload(msgs: &Vec<ReloadMsg>) -> (r: Option<ReloadMsg>)
    ensures
        msgs@.len() == 0 ==> r is None,
        msgs@.len() > 0 ==> r == Some(msgs@.last()),
{
    if msgs.len() == 0 {
        None
    } else {
        Some(msgs[msgs.len() - 1])
    }
}

/// A supervisor that has just started the effect of a configuration does not
/// restart it while that configuration stays the same.
pub proof fn lemma_started_effect_is_stable(s: SupervisorState, cfg: ConfigModel)
    requires
        s.running,
        s.last_mode == cfg.mode,
        s.last_effect_key@ == spec_effect_key(cfg),
    ensures
        !s.spec_needs_restart(cfg),
{
}

/// A supervisor restarts whenever the configured mode differs from the one
/// it started, and always after its effect was let go.
pub proof fn lemma_mode_change_restarts(s: SupervisorState, cfg: ConfigModel)
    requires
        !s.running || cfg.mode != s.last_mode,
    ensures
        s.spec_needs_restart(cfg),
{
}

/// A patch that asks for nothing leaves the configuration unchanged and
/// succeeds.
pub proof fn lemma_empty_patch_is_identity(m: ConfigModel, p: ConfigPatch)
    requires
        p.mode is None,
        p.brightness_bits is None,
        p.color is None,
        p.fps is None,
        p.speed_bits is None,
        p.sound_mode is None,
        p.reactivity_bits is None,
        p.sensitivity_bits is None,
    ensures
        patch_succeeds(m, p),
        spec_patched(m, p) == m,
{
}

/// Applying the same successful patch twice gives the same configuration
/// as applying it once.
pub proof fn lemma_patch_idempotent(m: ConfigModel, p: ConfigPatch)
    requires
        patch_succeeds(m, p),
    ensures
        patch_succeeds(spec_patched(m, p), p),
        spec_patched(spec_patched(m, p), p) == spec_patched(m, p),
{
    if let Some(c) = p.color {
        lemma_trim_hash_idempotent(c@);
    }
}

/// Removing leading `#` twice is removing them once.
pub proof fn lemma_trim_hash_idempotent(s: Seq<char>)
    ensures
        trim_hash_chars(trim_hash_chars(s)) == trim_hash_chars(s),
    decreases s.len(),
{
    if s.len() > 0 && s[0] == '#' {
        lemma_trim_hash_idempotent(s.drop_first());
    }
}

/// An external edit that changes neither the effect key nor the mode never
/// restarts anything, and a switch between the two screen modes is never a
/// forced restart.
pub proof fn lemma_file_change_reload(mem_key: Seq<char>, mem_mode: EffectMode, file_key: Seq<char>, file_mode: EffectMode)
    ensures
        (file_key == mem_key && file_mode == mem_mode) ==> spec_file_change_reload(mem_key, mem_mode, file_key, file_mode) is None,
        (mem_mode == EffectMode::Screen || mem_mode == EffectMode::ScreenCenter) && (file_mode
            == EffectMode::Screen || file_mode == EffectMode::ScreenCenter) ==> spec_file_change_reload(
            mem_key,
            mem_mode,
            file_key,
            file_mode,
        ) != Some(ReloadMsg::Force),
{
}

/// A patch whose mode is neither `rainbow` nor a known mode is refused and
/// changes nothing.
pub proof fn lemma_refused_mode_changes_nothing(m: ConfigModel, p: ConfigPatch)
    requires
        patch_mode_step(m, p) is None,
    ensures
        !patch_succeeds(m, p),
        spec_patched(m, p) == m,
{
}

/// Switching between the two screen modes is saved without restarting the
/// effect, whether it comes from a patch or from an edit of the file.
pub proof fn lemma_screen_switch_keeps_effect(from: EffectMode, to: EffectMode, key_a: Seq<char>, key_b: Seq<char>)
    requires
        from == EffectMode::Screen || from == EffectMode::ScreenCenter,
        to == EffectMode::Screen || to == EffectMode::ScreenCenter,
    ensures
        spec_persist_action(true, from, to) == PersistAction::Save,
        spec_file_change_reload(key_a, from, key_b, to) != Some(ReloadMsg::Force),
{
}

/// After a stop request, the next status request reports the effect `off`.
pub proof fn lemma_stop_then_status_reports_off(c: ConfigModel, s: StatusModel)
    ensures
        request_status(s, request_config(c, IpcRequest::Stop), IpcRequest::Status).effect == mode_name(EffectMode::Off),
{
}

/// After a successful patch that names a mode, the next status request
/// reports that mode.
pub proof fn lemma_patch_then_status_reports_mode(c: ConfigModel, s: StatusModel, p: ConfigPatch, x: EffectMode)
    requires
        patch_succeeds(c, p),
        p.mode matches Some(n) && n@ != rainbow_chars() && spec_parse_mode(n@) == Some(x),
    ensures
        request_status(s, request_config(c, IpcRequest::Patch(p)), IpcRequest::Status).effect == mode_name(x),
{
}

/// A patch that names a mode different from the running one restarts the
/// effect, unless both the old and the new mode mirror the screen; a patch
/// that names no mode, or the running mode, or switches between the two
/// screen modes, only saves.
pub proof fn lemma_mode_switch_restarts(mode_given: bool, old_mode: EffectMode, new_mode: EffectMode)
    ensures
        mode_given && old_mode != new_mode && !((old_mode == EffectMode::Screen || old_mode
            == EffectMode::ScreenCenter) && (new_mode == EffectMode::Screen || new_mode == EffectMode::ScreenCenter))
            ==> spec_persist_action(mode_given, old_mode, new_mode) == PersistAction::SaveAndRestart,
        !mode_given ==> spec_persist_action(mode_given, old_mode, new_mode) == PersistAction::Save,
        old_mode == new_mode ==> spec_persist_action(mode_given, old_mode, new_mode) == PersistAction::Save,
        (old_mode == EffectMode::Screen || old_mode == EffectMode::ScreenCenter) && (new_mode == EffectMode::Screen
            || new_mode == EffectMode::ScreenCenter) ==> spec_persist_action(mode_given, old_mode, new_mode)
            == PersistAction::Save,
{
}

/// A successful patch request that switches between modes other than the
/// two screen modes sends the forced restart; one that leaves the mode
/// alone sends nothing.
pub proof fn lemma_patch_request_restart(c: ConfigModel, p: ConfigPatch)
    requires
        patch_succeeds(c, p),
    ensures
        ({
            let n = spec_patched(c, p).mode;
            let screen = |m: EffectMode| m == EffectMode::Screen || m == EffectMode::ScreenCenter;
            &&& (p.mode is Some && c.mode != n && !(screen(c.mode) && screen(n))) ==> request_notify(c, IpcRequest::Patch(p))
                == Some(ReloadMsg::Force)
            &&& (p.mode is None || c.mode == n || (screen(c.mode) && screen(n))) ==> request_notify(c, IpcRequest::Patch(p))
                is None
        }),
{
}

/// A running supervisor restarts whenever the key of the configured
/// effect differs from the one it started, whatever the mode (a screen
/// mode moved to another monitor or layout file included); it restarts
/// when nothing runs; and it keeps running when mode and key are those
/// it started.
pub proof fn lemma_key_change_restarts(s: SupervisorState, cfg: ConfigModel)
    ensures
        s.running && spec_effect_key(cfg) != s.last_effect_key@ ==> s.spec_needs_restart(cfg),
        !s.running ==> s.spec_needs_restart(cfg),
        s.running && cfg.mode == s.last_mode && spec_effect_key(cfg) == s.last_effect_key@ ==> !s.spec_needs_restart(cfg),
{
}

/// The effect key of a screen mode tells monitors apart: two configurations
/// in the same screen mode with different monitors have different keys.
pub proof fn lemma_screen_key_names_monitor(a: ConfigModel, b: ConfigModel)
    requires
        a.mode == b.mode,
        a.mode == EffectMode::Screen || a.mode == EffectMode::ScreenCenter,
        a.monitor != b.monitor,
        a.layout == b.layout,
    ensures
        spec_effect_key(a) != spec_effect_key(b),
{
    crate::text::lemma_decimal_injective(a.monitor as nat, b.monitor as nat, a.layout, b.layout);
}

/// A stop request switches the effect off, saves, and forces a restart;
/// restart and reselect requests change nothing in the configuration and
/// only send their message; quit only raises the shutdown flag.
pub proof fn lemma_request_effects(c: ConfigModel)
    ensures
        request_config(c, IpcRequest::Stop).mode == EffectMode::Off,
        request_saves(IpcRequest::Stop) && request_notify(c, IpcRequest::Stop) == Some(ReloadMsg::Force),
        request_config(c, IpcRequest::Restart) == c && !request_saves(IpcRequest::Restart)
            && request_notify(c, IpcRequest::Restart) == Some(ReloadMsg::Force),
        request_config(c, IpcRequest::ReselectScreen) == c && request_notify(c, IpcRequest::ReselectScreen)
            == Some(ReloadMsg::ReselectScreen),
        request_config(c, IpcRequest::Quit) == c && !request_saves(IpcRequest::Quit)
            && request_notify(c, IpcRequest::Quit) is None,
        request_config(c, IpcRequest::Status) == c && !request_saves(IpcRequest::Status)
            && request_notify(c, IpcRequest::Status) is None,
{
}

/// What a successful patch sets: the frame rate asked for but at least 1,
/// the colour without its leading `#` characters, and for `rainbow` the
/// solid mode with the rainbow colour; fields it does not name keep their
/// value.
pub proof fn lemma_patch_fields(c: ConfigModel, p: ConfigPatch)
    requires
        patch_succeeds(c, p),
    ensures
        p.fps matches Some(f) ==> spec_patched(c, p).fps == (if f == 0 { 1 } else { f }),
        p.fps is None ==> spec_patched(c, p).fps == c.fps,
        p.brightness_bits matches Some(b) ==> spec_patched(c, p).brightness_bits == b,
        p.brightness_bits is None ==> spec_patched(c, p).brightness_bits == c.brightness_bits,
        p.color matches Some(k) ==> ((k@.len() == 0 || k@[0] != '#') ==> spec_patched(c, p).color == k@),
        p.mode is None && p.color is None ==> spec_patched(c, p).color == c.color && spec_patched(c, p).mode == c.mode,
        p.mode matches Some(m) && m@ == rainbow_chars() ==> spec_patched(c, p).mode == EffectMode::Solid,
        p.mode matches Some(m) && m@ == rainbow_chars() && p.color is None ==> spec_patched(c, p).color == rainbow_chars(),
        p.sound_mode is None ==> spec_patched(c, p).sound_mode == c.sound_mode,
        spec_patched(c, p).port == c.port && spec_patched(c, p).leds == c.leds && spec_patched(c, p).monitor == c.monitor
            && spec_patched(c, p).layout == c.layout,
{
    if let Some(k) = p.color {
        if k@.len() == 0 || k@[0] != '#' {
            assert(trim_hash_chars(k@) == k@);
        }
    }
}

/// An external edit that changes the mode, other than between the two
/// screen modes, forces a restart; one that keeps the mode but changes the
/// effect key, or switches between the screen modes, asks for an ordinary
/// apply.
pub proof fn lemma_file_edit_reactions(mem_key: Seq<char>, mem_mode: EffectMode, file_key: Seq<char>, file_mode: EffectMode)
    ensures
        mem_mode != file_mode && !((mem_mode == EffectMode::Screen || mem_mode == EffectMode::ScreenCenter) && (file_mode
            == EffectMode::Screen || file_mode == EffectMode::ScreenCenter)) ==> spec_file_change_reload(
            mem_key,
            mem_mode,
            file_key,
            file_mode,
        ) == Some(ReloadMsg::Force),
        mem_mode == file_mode && mem_key != file_key ==> spec_file_change_reload(mem_key, mem_mode, file_key, file_mode)
            == Some(ReloadMsg::Apply),
        mem_mode != file_mode && (mem_mode == EffectMode::Screen || mem_mode == EffectMode::ScreenCenter) && (file_mode
            == EffectMode::Screen || file_mode == EffectMode::ScreenCenter) ==> spec_file_change_reload(
            mem_key,
            mem_mode,
            file_key,
            file_mode,
        ) == Some(ReloadMsg::Apply),
{
}

/// After trimming, a colour no longer starts with `#`, and only leading
/// `#` characters were removed.
pub proof fn lemma_trim_hash_shape(s: Seq<char>)
    ensures
        trim_hash_chars(s).len() <= s.len(),
        trim_hash_chars(s).len() == 0 || trim_hash_chars(s)[0] != '#',
        trim_hash_chars(s) == s.skip(s.len() - trim_hash_chars(s).len()),
        forall|k: int| 0 <= k < s.len() - trim_hash_chars(s).len() ==> #[trigger] s[k] == '#',
    decreases s.len(),
{
    if s.len() > 0 && s[0] == '#' {
        let r = s.drop_first();
        lemma_trim_hash_shape(r);
        assert(r.skip(r.len() - trim_hash_chars(r).len()) =~= s.skip(s.len() - trim_hash_chars(r).len()));
        assert forall|k: int| 0 <= k < s.len() - trim_hash_chars(s).len() implies #[trigger] s[k] == '#' by {
            if k > 0 {
                assert(s[k] == r[k - 1]);
            }
        }
    } else {
        assert(s.skip(0) =~= s);
    }
}

} // verus!
