//! Control-panel logic: the list of effects and its scrolling, digit
//! picking, colour / frame-rate / sound presets, and which controls apply
//! to which effect. Drawing and IPC stay outside this library; the
//! functions here return the request to send, if any.

use vstd::prelude::*;
use crate::config::{EffectMode, mode_name, lemma_mode_name_injective};
use crate::text::{decimal, owned, push_decimal, push_str, str_eq};
use vstd::string::StrSliceExecFns;

verus! {

/// Number of effects in the list.
pub const MODE_COUNT: usize = 17;
/// Number of colour presets.
pub const COLOR_PRESET_COUNT: usize = 8;
/// Number of frame-rate presets.
pub const FPS_PRESET_COUNT: usize = 4;
/// Number of sound modes.
pub const SOUND_MODE_COUNT: usize = 3;
/// Lowest animation speed the panel sets.
pub const SPEED_MIN_BITS: u32 = 0x3DCC_CCCD;
/// Highest animation speed the panel sets.
pub const SPEED_MAX_BITS: u32 = 0x40A0_0000;

/// The effects in list order.
pub open spec fn ui_mode(i: int) -> EffectMode {
    if i == 0 { EffectMode::Off }
    else if i == 1 { EffectMode::Screen }
    else if i == 2 { EffectMode::ScreenCenter }
    else if i == 3 { EffectMode::Solid }
    else if i == 4 { EffectMode::Candle }
    else if i == 5 { EffectMode::Chase }
    else if i == 6 { EffectMode::Wave }
    else if i == 7 { EffectMode::Scanner }
    else if i == 8 { EffectMode::Sparkle }
    else if i == 9 { EffectMode::Pulse }
    else if i == 10 { EffectMode::Aurora }
    else if i == 11 { EffectMode::Fire }
    else if i == 12 { EffectMode::Heartbeat }
    else if i == 13 { EffectMode::Segment }
    else if i == 14 { EffectMode::Strobe }
    else if i == 15 { EffectMode::Wipe }
    else { EffectMode::SoundViz }
}

/// The name of the `i`-th effect of the list.
pub open spec fn ui_mode_name(i: int) -> Seq<char> {
    mode_name(ui_mode(i))
}

/// The effect at position `i` of the list.
pub fn mode_at(i: usize) -> (m: EffectMode)
    requires
        i < MODE_COUNT,
    ensures
        m == ui_mode(i as int),
{
    let modes = [
        EffectMode::Off,
        EffectMode::Screen,
        EffectMode::ScreenCenter,
        EffectMode::Solid,
        EffectMode::Candle,
        EffectMode::Chase,
        EffectMode::Wave,
        EffectMode::Scanner,
        EffectMode::Sparkle,
        EffectMode::Pulse,
        EffectMode::Aurora,
        EffectMode::Fire,
        EffectMode::Heartbeat,
        EffectMode::Segment,
        EffectMode::Strobe,
        EffectMode::Wipe,
        EffectMode::SoundViz,
    ];
    modes[i]
}

/// The name of the effect at position `i` of the list.
pub fn mode_name_at(i: usize) -> (s: &'static str)
    requires
        i < MODE_COUNT,
    ensures
        s@ == ui_mode_name(i as int),
{
    mode_at(i).as_str()
}

/// Distinct positions of the list hold distinct effects.
pub proof fn lemma_ui_modes_distinct(i: int, j: int)
    requires
        0 <= i < MODE_COUNT,
        0 <= j < MODE_COUNT,
        i != j,
    ensures
        ui_mode_name(i) != ui_mode_name(j),
{
    lemma_mode_name_injective(ui_mode(i), ui_mode(j));
}

/// Position of the effect named `s` in the list.
pub open spec fn ui_mode_index(s: Seq<char>) -> Option<int> {
    if exists|i: int| 0 <= i < MODE_COUNT && ui_mode_name(i) == s {
        Some(choose|i: int| 0 <= i < MODE_COUNT && ui_mode_name(i) == s)
    } else {
        None
    }
}

/// The position of the effect named `s`, if it is in the list.
pub fn mode_index(s: &str) -> (r: Option<usize>)
    ensures
        match ui_mode_index(s@) {
            Some(i) => r == Some(i as usize),
            None => r is None,
        },
{
    let mut i: usize = 0;
    while i < MODE_COUNT
        invariant
            i <= MODE_COUNT,
            forall|k: int| 0 <= k < i ==> ui_mode_name(k) != s@,
        decreases MODE_COUNT - i,
    {
        if str_eq(s, mode_name_at(i)) {
            proof {
                let c = choose|k: int| 0 <= k < MODE_COUNT && ui_mode_name(k) == s@;
                if c != i {
                    lemma_ui_modes_distinct(c, i as int);
                }
            }
            return Some(i);
        }
        i += 1;
    }
    None
}

/// Rows the `idx`-th entry takes in the list: three for the active effect
/// (it is framed), one otherwise.
pub open spec fn spec_item_height(idx: int, active: Seq<char>) -> u16 {
    if ui_mode_name(idx) == active { 3 } else { 1 }
}

/// Rows the `idx`-th list entry takes; see [`spec_item_height`].
pub fn item_height(idx: usize, active_effect: &str) -> (h: u16)
    requires
        idx < MODE_COUNT,
    ensures
        h == spec_item_height(idx as int, active_effect@),
{
    if str_eq(mode_name_at(idx), active_effect) { 3 } else { 1 }
}

/// The label shown for the `i`-th effect of the list.
pub open spec fn ui_label(i: int) -> Seq<char> {
    if i == 0 { "Off"@ }
    else if i == 1 { "Screen Sync"@ }
    else if i == 2 { "Screen Sync Center"@ }
    else if i == 3 { "Solid"@ }
    else if i == 4 { "Candle"@ }
    else if i == 5 { "Chase"@ }
    else if i == 6 { "Wave"@ }
    else if i == 7 { "Scanner"@ }
    else if i == 8 { "Sparkle"@ }
    else if i == 9 { "Pulse"@ }
    else if i == 10 { "Aurora"@ }
    else if i == 11 { "Fire"@ }
    else if i == 12 { "Heartbeat"@ }
    else if i == 13 { "Segment"@ }
    else if i == 14 { "Strobe"@ }
    else if i == 15 { "Wipe"@ }
    else { "Sound Viz"@ }
}

fn label_at(i: usize) -> (s: &'static str)
    requires
        i < MODE_COUNT,
    ensures
        s@ == ui_label(i as int),
{
    if i == 0 { "Off" }
    else if i == 1 { "Screen Sync" }
    else if i == 2 { "Screen Sync Center" }
    else if i == 3 { "Solid" }
    else if i == 4 { "Candle" }
    else if i == 5 { "Chase" }
    else if i == 6 { "Wave" }
    else if i == 7 { "Scanner" }
    else if i == 8 { "Sparkle" }
    else if i == 9 { "Pulse" }
    else if i == 10 { "Aurora" }
    else if i == 11 { "Fire" }
    else if i == 12 { "Heartbeat" }
    else if i == 13 { "Segment" }
    else if i == 14 { "Strobe" }
    else if i == 15 { "Wipe" }
    else { "Sound Viz" }
}

/// The label shown for an effect name: its list label, or the name itself
/// when it is not in the list.
pub open spec fn spec_mode_label(mode: Seq<char>) -> Seq<char> {
    match ui_mode_index(mode) {
        Some(i) => ui_label(i),
        None => mode,
    }
}

/// The label shown for an effect name; see [`spec_mode_label`].
pub fn mode_label(mode: &str) -> (r: String)
    ensures
        r@ == spec_mode_label(mode@),
{
    match mode_index(mode) {
        Some(i) => owned(label_at(i)),
        None => owned(mode),
    }
}

/// The effect mirrors the screen.
pub open spec fn spec_is_screen_sync(mode: Seq<char>) -> bool {
    mode == mode_name(EffectMode::Screen) || mode == mode_name(EffectMode::ScreenCenter)
}

/// Whether the named effect mirrors the screen.
pub fn is_screen_sync(mode: &str) -> (r: bool)
    ensures
        r == spec_is_screen_sync(mode@),
{
    str_eq(mode, EffectMode::Screen.as_str()) || str_eq(mode, EffectMode::ScreenCenter.as_str())
}

/// The effect is animated, so the speed control applies: everything but
/// off, solid, the sound visualiser and the screen modes.
pub open spec fn spec_uses_speed(effect: Seq<char>) -> bool {
    effect != mode_name(EffectMode::Off) && effect != mode_name(EffectMode::Solid) && effect
        != mode_name(EffectMode::SoundViz) && !spec_is_screen_sync(effect)
}

/// Whether the speed control applies to the named effect.
pub fn uses_speed(effect: &str) -> (r: bool)
    ensures
        r == spec_uses_speed(effect@),
{
    !str_eq(effect, EffectMode::Off.as_str()) && !str_eq(effect, EffectMode::Solid.as_str())
        && !str_eq(effect, EffectMode::SoundViz.as_str()) && !is_screen_sync(effect)
}

/// The effect uses the accent colour: everything but off and the screen
/// modes.
pub open spec fn spec_uses_accent_color(effect: Seq<char>) -> bool {
    effect != mode_name(EffectMode::Off) && !spec_is_screen_sync(effect)
}

/// Whether the named effect uses the accent colour.
pub fn uses_accent_color(effect: &str) -> (r: bool)
    ensures
        r == spec_uses_accent_color(effect@),
{
    !str_eq(effect, EffectMode::Off.as_str()) && !is_screen_sync(effect)
}

/// Whether the colour picker is enabled for the named effect (exactly when
/// it uses the accent colour).
pub fn color_picker_enabled(effect: &str) -> (r: bool)
    ensures
        r == spec_uses_accent_color(effect@),
{
    uses_accent_color(effect)
}

/// The `i`-th colour preset.
pub open spec fn color_preset(i: int) -> Seq<char> {
    if i == 0 { "ff3300"@ }
    else if i == 1 { "ff0000"@ }
    else if i == 2 { "ffffff"@ }
    else if i == 3 { "0099ff"@ }
    else if i == 4 { "00ff88"@ }
    else if i == 5 { "ff00ff"@ }
    else if i == 6 { "ffff00"@ }
    else { "rainbow"@ }
}

/// The colour preset at position `i`.
pub fn color_preset_at(i: usize) -> (s: &'static str)
    requires
        i < COLOR_PRESET_COUNT,
    ensures
        s@ == color_preset(i as int),
{
    if i == 0 { "ff3300" }
    else if i == 1 { "ff0000" }
    else if i == 2 { "ffffff" }
    else if i == 3 { "0099ff" }
    else if i == 4 { "00ff88" }
    else if i == 5 { "ff00ff" }
    else if i == 6 { "ffff00" }
    else { "rainbow" }
}

/// The `i`-th frame-rate preset.
pub open spec fn fps_preset(i: int) -> u32 {
    if i == 0 { 24 } else if i == 1 { 30 } else if i == 2 { 45 } else { 60 }
}

fn fps_preset_at(i: usize) -> (f: u32)
    requires
        i < FPS_PRESET_COUNT,
    ensures
        f == fps_preset(i as int),
{
    if i == 0 { 24 } else if i == 1 { 30 } else if i == 2 { 45 } else { 60 }
}

/// The `i`-th sound mode in cycling order.
pub open spec fn sound_mode_preset(i: int) -> Seq<char> {
    if i == 0 { "off"@ } else if i == 1 { "level"@ } else { "balance"@ }
}

fn sound_mode_at(i: usize) -> (s: &'static str)
    requires
        i < SOUND_MODE_COUNT,
    ensures
        s@ == sound_mode_preset(i as int),
{
    if i == 0 { "off" } else if i == 1 { "level" } else { "balance" }
}

/// The part of the panel's state that its logic reads and changes.
#[derive(Debug)]
pub struct UiSelection {
    /// Name of the active effect.
    pub effect: String,
    /// Accent colour (hex or `rainbow`).
    pub color: String,
    pub fps: u32,
    /// Name of the sound mode.
    pub sound_mode: String,
    /// Selected colour preset.
    pub color_idx: usize,
    /// Selected frame-rate preset.
    pub fps_idx: usize,
    /// Highlighted list entry.
    pub list_cursor: usize,
    /// First list entry shown.
    pub list_scroll: usize,
    /// Digits typed so far for a two-digit pick.
    pub digit_buf: String,
}

impl UiSelection {
    /// The indices stay inside their lists.
    pub open spec fn wf(&self) -> bool {
        &&& self.color_idx < COLOR_PRESET_COUNT
        &&& self.fps_idx < FPS_PRESET_COUNT
        &&& self.list_cursor < MODE_COUNT
        &&& forall|i: int| 0 <= i < self.digit_buf@.len() ==> is_digit(#[trigger] self.digit_buf@[i])
    }

    /// The panel's state before the daemon first answers: effect off, 30
    /// fps, rainbow colour, sound off, cursor and scroll at the top.
    pub fn new() -> (s: UiSelection)
        ensures
            s.wf(),
            s.effect@ == "off"@,
            s.color@ == "rainbow"@,
            s.fps == 30,
            s.sound_mode@ == "off"@,
            s.color_idx == 7,
            s.fps_idx == 1,
            s.list_cursor == 0,
            s.list_scroll == 0,
            s.digit_buf@.len() == 0,
    {
        UiSelection {
            effect: owned("off"),
            color: owned("rainbow"),
            fps: 30,
            sound_mode: owned("off"),
            color_idx: 7,
            fps_idx: 1,
            list_cursor: 0,
            list_scroll: 0,
            digit_buf: String::new(),
        }
    }

    /// Selects the colour preset equal to the current colour (the first
    /// such), if any.
    pub fn sync_color_idx(&mut self)
        requires
            old(self).wf(),
        ensures
            final(self).wf(),
            (exists|i: int| 0 <= i < COLOR_PRESET_COUNT && color_preset(i) == old(self).color@) ==> (
            color_preset(final(self).color_idx as int) == old(self).color@ && forall|j: int|
                0 <= j < final(self).color_idx ==> color_preset(j) != old(self).color@),
            !(exists|i: int| 0 <= i < COLOR_PRESET_COUNT && color_preset(i) == old(self).color@)
                ==> final(self).color_idx == old(self).color_idx,
            final(self).effect == old(self).effect,
            final(self).color == old(self).color,
            final(self).fps == old(self).fps,
            final(self).fps_idx == old(self).fps_idx,
            final(self).list_cursor == old(self).list_cursor,
            final(self).list_scroll == old(self).list_scroll,
            final(self).digit_buf == old(self).digit_buf,
            final(self).sound_mode == old(self).sound_mode,
    {
        let mut i: usize = 0;
        while i < COLOR_PRESET_COUNT
            invariant
                i <= COLOR_PRESET_COUNT,
                self.wf(),
                self.color_idx == old(self).color_idx,
                self.color == old(self).color,
                self.effect == old(self).effect,
                self.fps == old(self).fps,
                self.fps_idx == old(self).fps_idx,
                self.list_cursor == old(self).list_cursor,
                self.list_scroll == old(self).list_scroll,
                self.digit_buf == old(self).digit_buf,
                self.sound_mode == old(self).sound_mode,
                forall|j: int| 0 <= j < i ==> color_preset(j) != self.color@,
            decreases COLOR_PRESET_COUNT - i,
        {
            if str_eq(color_preset_at(i), self.color.as_str()) {
                self.color_idx = i;
                return;
            }
            i += 1;
        }
    }

    /// Selects the frame-rate preset equal to the current rate, or else the
    /// nearest one (the first of equally near ones).
    pub fn sync_fps_idx(&mut self)
        requires
            old(self).wf(),
        ensures
            final(self).wf(),
            forall|j: int| 0 <= j < FPS_PRESET_COUNT ==> abs_diff(fps_preset(final(self).fps_idx as int), old(self).fps)
                <= abs_diff(#[trigger] fps_preset(j), old(self).fps),
            forall|j: int| 0 <= j < final(self).fps_idx ==> abs_diff(fps_preset(final(self).fps_idx as int), old(self).fps)
                < abs_diff(#[trigger] fps_preset(j), old(self).fps),
            final(self).effect == old(self).effect,
            final(self).color == old(self).color,
            final(self).fps == old(self).fps,
            final(self).color_idx == old(self).color_idx,
            final(self).list_cursor == old(self).list_cursor,
            final(self).list_scroll == old(self).list_scroll,
            final(self).digit_buf == old(self).digit_buf,
            final(self).sound_mode == old(self).sound_mode,
    {
        let fps = self.fps;
        let mut best: usize = 0;
        let mut best_d: u32 = abs_diff_u32(fps_preset_at(0), fps);
        let mut i: usize = 1;
        while i < FPS_PRESET_COUNT
            invariant
                1 <= i <= FPS_PRESET_COUNT,
                fps == old(self).fps,
                best < i,
                best_d == abs_diff(fps_preset(best as int), fps),
                forall|j: int| 0 <= j < i ==> best_d <= abs_diff(#[trigger] fps_preset(j), fps),
                forall|j: int| 0 <= j < best ==> best_d < abs_diff(#[trigger] fps_preset(j), fps),
            decreases FPS_PRESET_COUNT - i,
        {
            let d = abs_diff_u32(fps_preset_at(i), fps);
            if d < best_d {
                best = i;
                best_d = d;
            }
            i += 1;
        }
        self.fps_idx = best;
    }

    /// Moves the cursor to the active effect, if it is in the list.
    pub fn sync_list_cursor(&mut self)
        requires
            old(self).wf(),
        ensures
            final(self).wf(),
            match ui_mode_index(old(self).effect@) {
                Some(i) => final(self).list_cursor == i,
                None => final(self).list_cursor == old(self).list_cursor,
            },
            final(self).list_scroll == old(self).list_scroll,
            final(self).effect == old(self).effect,
            final(self).color == old(self).color,
            final(self).fps == old(self).fps,
            final(self).color_idx == old(self).color_idx,
            final(self).fps_idx == old(self).fps_idx,
            final(self).digit_buf == old(self).digit_buf,
            final(self).sound_mode == old(self).sound_mode,
    {
        if let Some(i) = mode_index(self.effect.as_str()) {
            self.list_cursor = i;
        }
    }
}

/// Distance between two frame rates.
pub open spec fn abs_diff(a: u32, b: u32) -> int {
    if a >= b { a - b } else { b - a }
}

fn abs_diff_u32(a: u32, b: u32) -> (r: u32)
    ensures
        r == abs_diff(a, b),
{
    if a >= b { a - b } else { b - a }
}


/// An ASCII decimal digit.
pub open spec fn is_digit(c: char) -> bool {
    '0' <= c <= '9'
}

/// The value of a digit string.
pub open spec fn digits_value(s: Seq<char>) -> nat
    decreases s.len(),
{
    if s.len() == 0 {
        0
    } else {
        digits_value(s.drop_last()) * 10 + ((s.last() as int - '0' as int) as nat)
    }
}

/// The digits of an unsigned integer literal: the string without one
/// leading `+`.
pub open spec fn number_digits(s: Seq<char>) -> Seq<char> {
    if s.len() > 0 && s[0] == '+' { s.drop_first() } else { s }
}

/// Every character is a digit.
pub open spec fn all_digits(d: Seq<char>) -> bool {
    forall|i: int| 0 <= i < d.len() ==> is_digit(#[trigger] d[i])
}

/// The number a string denotes as an unsigned integer literal (an optional
/// `+`, then at least one digit), ignoring overflow.
pub open spec fn spec_number(s: Seq<char>) -> Option<nat> {
    let d = number_digits(s);
    if d.len() > 0 && all_digits(d) {
        Some(digits_value(d))
    } else {
        None
    }
}

/// The list entry a typed number picks: entries are numbered from 1, and a
/// number that is not the number of an entry keeps `cursor`.
pub open spec fn spec_digit_pick(buf: Seq<char>, cursor: int) -> int {
    match spec_number(buf) {
        Some(v) => if 1 <= v <= MODE_COUNT { v - 1 } else { cursor },
        None => cursor,
    }
}

proof fn lemma_digits_value_grows(s: Seq<char>, c: char)
    requires
        is_digit(c),
    ensures
        digits_value(s.push(c)) == digits_value(s) * 10 + ((c as int - '0' as int) as nat),
        digits_value(s.push(c)) >= digits_value(s),
{
    assert(s.push(c).drop_last() =~= s);
}

/// The number a string denotes, capped at 18 (enough to tell list entries
/// apart from everything else), or `None` when it is not a number.
fn small_number(s: &str) -> (r: Option<usize>)
    ensures
        match spec_number(s@) {
            Some(v) => r == Some(if v < 18 { v as usize } else { 18usize }),
            None => r is None,
        },
{
    let n = s.unicode_len();
    let mut start: usize = 0;
    if n > 0 && s.get_char(0) == '+' {
        start = 1;
    }
    let ghost d = number_digits(s@);
    assert(d =~= s@.skip(start as int));
    if start >= n {
        return None;
    }
    let mut v: usize = 0;
    let mut i: usize = start;
    while i < n
        invariant
            n == s@.len(),
            start <= i <= n,
            d == s@.skip(start as int),
            d == number_digits(s@),
            forall|k: int| 0 <= k < i - start ==> is_digit(#[trigger] d[k]),
            v == (if digits_value(d.take(i - start)) < 18 { digits_value(d.take(i - start)) } else { 18 }),
        decreases n - i,
    {
        let c = s.get_char(i);
        if !('0' <= c && c <= '9') {
            assert(d[i - start] == c);
            assert(!is_digit(d[(i - start) as int]));
            return None;
        }
        proof {
            assert(d.take(i - start + 1) =~= d.take(i - start).push(c));
            lemma_digits_value_grows(d.take(i - start), c);
        }
        if v < 18 {
            let dv = (c as u8 - 48) as usize;
            let nv = v * 10 + dv;
            v = if nv < 18 { nv } else { 18 };
        }
        i += 1;
    }
    assert(d.take(n - start) =~= d);
    Some(v)
}

/// The first row of the list scrolled to so that the cursor's entry is
/// fully visible in `visible` rows: starting at `s`, scroll down one entry
/// at a time until the rows from the first shown entry through the
/// cursor's entry fit, or the cursor's entry is the first shown.
pub open spec fn spec_settle_scroll(s: int, cursor: int, effect: Seq<char>, visible: int) -> int
    decreases cursor - s,
{
    if s >= cursor || list_rows(s, cursor + 1, effect) <= visible {
        s
    } else {
        spec_settle_scroll(s + 1, cursor, effect, visible)
    }
}

/// Total rows of list entries `s..e`.
pub open spec fn list_rows(s: int, e: int, effect: Seq<char>) -> int
    decreases e - s,
{
    if e <= s {
        0
    } else {
        list_rows(s, e - 1, effect) + spec_item_height(e - 1, effect)
    }
}

proof fn lemma_list_rows_bounds(s: int, e: int, effect: Seq<char>)
    ensures
        e > s ==> e - s <= list_rows(s, e, effect) <= 3 * (e - s),
        e <= s ==> list_rows(s, e, effect) == 0,
    decreases e - s,
{
    if e > s {
        lemma_list_rows_bounds(s, e - 1, effect);
    }
}

/// Drawn rows from entry `scroll` until the cursor's entry: whether that
/// entry fits in `visible` rows.
fn cursor_fits(scroll: usize, cursor: usize, effect: &str, visible: u16) -> (ok: bool)
    requires
        scroll <= cursor < MODE_COUNT,
    ensures
        ok == (list_rows(scroll as int, cursor + 1, effect@) <= visible),
{
    let mut y: u16 = 0;
    let mut idx: usize = scroll;
    let mut ok = false;
    proof {
        lemma_list_rows_grow(scroll as int, scroll as int, cursor + 1, effect@);
    }
    while idx < MODE_COUNT && y < visible
        invariant_except_break
            !ok,
        invariant
            scroll <= idx <= cursor,
            cursor < MODE_COUNT,
            y == list_rows(scroll as int, idx as int, effect@),
            list_rows(scroll as int, cursor + 1, effect@) >= list_rows(scroll as int, idx as int, effect@) + (cursor + 1 - idx),
        ensures
            ok == (list_rows(scroll as int, cursor + 1, effect@) <= visible),
        decreases cursor - idx,
    {
        proof {
            lemma_list_rows_bounds(scroll as int, idx as int, effect@);
            lemma_list_rows_bounds(scroll as int, idx + 1, effect@);
            lemma_list_rows_grow(scroll as int, idx + 1, cursor + 1, effect@);
        }
        let h = item_height(idx, effect);
        if idx == cursor {
            ok = y.saturating_add(h) <= visible;
            break;
        }
        y = y.saturating_add(h);
        idx += 1;
    }
    ok
}

proof fn lemma_list_rows_grow(s: int, m: int, e: int, effect: Seq<char>)
    requires
        s <= m <= e,
    ensures
        list_rows(s, e, effect) >= list_rows(s, m, effect) + (e - m),
    decreases e - m,
{
    if e > m {
        lemma_list_rows_grow(s, m, e - 1, effect);
    }
}

impl UiSelection {
    /// Scrolls the list so that the cursor's entry is fully shown in
    /// `visible` rows: up to the cursor if it is above the first shown
    /// entry, then down as little as needed; see [`spec_settle_scroll`].
    pub fn ensure_list_cursor_visible(&mut self, visible: u16)
        requires
            old(self).wf(),
        ensures
            final(self).wf(),
            final(self).list_scroll == spec_settle_scroll(
                if old(self).list_cursor < old(self).list_scroll { old(self).list_cursor as int } else { old(self).list_scroll as int },
                old(self).list_cursor as int,
                old(self).effect@,
                visible as int,
            ),
            final(self).list_cursor == old(self).list_cursor,
            final(self).effect == old(self).effect,
            final(self).color == old(self).color,
            final(self).fps == old(self).fps,
            final(self).color_idx == old(self).color_idx,
            final(self).fps_idx == old(self).fps_idx,
            final(self).digit_buf == old(self).digit_buf,
            final(self).sound_mode == old(self).sound_mode,
    {
        if self.list_cursor < self.list_scroll {
            self.list_scroll = self.list_cursor;
        }
        let ghost s0 = self.list_scroll as int;
        let ghost c = self.list_cursor as int;
        let ghost eff = self.effect@;
        loop
            invariant
                self.wf(),
                self.list_cursor == old(self).list_cursor,
                self.effect == old(self).effect,
                self.color == old(self).color,
                self.fps == old(self).fps,
                self.color_idx == old(self).color_idx,
                self.fps_idx == old(self).fps_idx,
                self.digit_buf == old(self).digit_buf,
                self.sound_mode == old(self).sound_mode,
                c == self.list_cursor,
                eff == self.effect@,
                s0 <= self.list_scroll <= c,
                spec_settle_scroll(s0, c, eff, visible as int) == spec_settle_scroll(self.list_scroll as int, c, eff, visible as int),
            ensures
                self.wf(),
                self.list_cursor == old(self).list_cursor,
                self.effect == old(self).effect,
                self.color == old(self).color,
                self.fps == old(self).fps,
                self.color_idx == old(self).color_idx,
                self.fps_idx == old(self).fps_idx,
                self.digit_buf == old(self).digit_buf,
                self.sound_mode == old(self).sound_mode,
                self.list_scroll == spec_settle_scroll(s0, c, eff, visible as int),
            decreases c - self.list_scroll,
        {
            let ok = cursor_fits(self.list_scroll, self.list_cursor, self.effect.as_str(), visible);
            if ok || self.list_scroll >= self.list_cursor {
                break;
            }
            self.list_scroll += 1;
        }
    }
}


/// `(i + dir)` wrapped into `0..n`.
pub open spec fn wrap_index(i: int, dir: int, n: int) -> int {
    (i + dir) % n
}

fn wrap(i: usize, dir: i32, n: usize) -> (r: usize)
    requires
        0 < n <= 64,
        i < n,
    ensures
        r == wrap_index(i as int, dir as int, n as int),
        r < n,
{
    let a: i64 = i as i64 + dir as i64;
    match a.checked_rem_euclid(n as i64) {
        Some(r) => r as usize,
        None => 0,
    }
}

impl UiSelection {
    /// Makes `mode` the active effect; the panel then asks the daemon for
    /// that mode.
    pub fn patch_mode(&mut self, mode: &str)
        ensures
            final(self).effect@ == mode@,
            final(self).color == old(self).color,
            final(self).fps == old(self).fps,
            final(self).sound_mode == old(self).sound_mode,
            final(self).color_idx == old(self).color_idx,
            final(self).fps_idx == old(self).fps_idx,
            final(self).list_cursor == old(self).list_cursor,
            final(self).list_scroll == old(self).list_scroll,
            final(self).digit_buf == old(self).digit_buf,
    {
        self.effect = owned(mode);
    }

    /// Up/down in the effect list: clears typed digits, moves the cursor by
    /// `dir` with wrap-around, and when it moved, activates the entry under
    /// it. Returns the mode to request, if any.
    pub fn move_list_cursor(&mut self, dir: i32) -> (req: Option<&'static str>)
        requires
            old(self).wf(),
        ensures
            final(self).wf(),
            final(self).digit_buf@.len() == 0,
            final(self).list_cursor == wrap_index(old(self).list_cursor as int, dir as int, MODE_COUNT as int),
            final(self).list_cursor == old(self).list_cursor ==> req is None && final(self).effect == old(self).effect,
            final(self).list_cursor != old(self).list_cursor ==> (req matches Some(m) && m@ == ui_mode_name(
                final(self).list_cursor as int,
            ) && final(self).effect@ == m@),
            final(self).color == old(self).color,
            final(self).fps == old(self).fps,
            final(self).sound_mode == old(self).sound_mode,
            final(self).color_idx == old(self).color_idx,
            final(self).fps_idx == old(self).fps_idx,
            final(self).list_scroll == old(self).list_scroll,
    {
        self.digit_buf = String::new();
        let next = wrap(self.list_cursor, dir, MODE_COUNT);
        if next == self.list_cursor {
            return None;
        }
        self.list_cursor = next;
        let m = mode_name_at(next);
        self.patch_mode(m);
        Some(m)
    }

    /// Picks the entry numbered by the typed digits (see
    /// [`spec_digit_pick`]), clears them and activates that entry. Returns
    /// the mode to request.
    pub fn apply_digit_pick(&mut self) -> (req: &'static str)
        requires
            old(self).wf(),
        ensures
            final(self).wf(),
            final(self).list_cursor == spec_digit_pick(old(self).digit_buf@, old(self).list_cursor as int),
            req@ == ui_mode_name(final(self).list_cursor as int),
            final(self).effect@ == req@,
            final(self).digit_buf@.len() == 0,
            final(self).color == old(self).color,
            final(self).fps == old(self).fps,
            final(self).sound_mode == old(self).sound_mode,
            final(self).color_idx == old(self).color_idx,
            final(self).fps_idx == old(self).fps_idx,
            final(self).list_scroll == old(self).list_scroll,
    {
        let idx = match small_number(self.digit_buf.as_str()) {
            Some(v) => if v >= 1 && v <= MODE_COUNT { v - 1 } else { self.list_cursor },
            None => self.list_cursor,
        };
        self.digit_buf = String::new();
        self.list_cursor = idx;
        let m = mode_name_at(idx);
        self.patch_mode(m);
        m
    }

    /// A digit key. With nothing typed yet, `1`..`9` activate that entry at
    /// once; otherwise the digit is typed, and two typed digits pick an
    /// entry. Returns the mode to request, if any.
    pub fn on_digit(&mut self, c: char) -> (req: Option<&'static str>)
        requires
            old(self).wf(),
            is_digit(c),
        ensures
            final(self).wf(),
            old(self).digit_buf@.len() == 0 && c != '0' ==> (req matches Some(m) && final(self).list_cursor == (c as int - '1' as int)
                && m@ == ui_mode_name(final(self).list_cursor as int) && final(self).effect@ == m@
                && final(self).digit_buf == old(self).digit_buf),
            old(self).digit_buf@.len() == 0 && c == '0' ==> (req is None && final(self).digit_buf@ == seq!['0']
                && final(self).list_cursor == old(self).list_cursor && final(self).effect == old(self).effect),
            old(self).digit_buf@.len() > 0 ==> (req matches Some(m) && final(self).list_cursor == spec_digit_pick(
                old(self).digit_buf@.push(c),
                old(self).list_cursor as int,
            ) && m@ == ui_mode_name(final(self).list_cursor as int) && final(self).effect@ == m@
                && final(self).digit_buf@.len() == 0),
            final(self).color == old(self).color,
            final(self).fps == old(self).fps,
            final(self).sound_mode == old(self).sound_mode,
            final(self).color_idx == old(self).color_idx,
            final(self).fps_idx == old(self).fps_idx,
            final(self).list_scroll == old(self).list_scroll,
    {
        let empty = self.digit_buf.as_str().unicode_len() == 0;
        if empty {
            let d = (c as u8 - 48) as usize;
            if d >= 1 && d <= 9 {
                self.list_cursor = d - 1;
                let m = mode_name_at(d - 1);
                self.patch_mode(m);
                return Some(m);
            }
        }
        crate::text::push_char(&mut self.digit_buf, c);
        if self.digit_buf.as_str().unicode_len() >= 2 {
            Some(self.apply_digit_pick())
        } else {
            assert(self.digit_buf@ =~= seq!['0']);
            None
        }
    }

    /// Escape or `q`: drops typed digits if there are any (returns
    /// `false`), otherwise asks to quit (returns `true`).
    pub fn on_escape(&mut self) -> (quit: bool)
        requires
            old(self).wf(),
        ensures
            final(self).wf(),
            quit == (old(self).digit_buf@.len() == 0),
            final(self).digit_buf@.len() == 0,
            final(self).effect == old(self).effect,
            final(self).color == old(self).color,
            final(self).fps == old(self).fps,
            final(self).sound_mode == old(self).sound_mode,
            final(self).color_idx == old(self).color_idx,
            final(self).fps_idx == old(self).fps_idx,
            final(self).list_cursor == old(self).list_cursor,
            final(self).list_scroll == old(self).list_scroll,
    {
        if self.digit_buf.as_str().unicode_len() != 0 {
            self.digit_buf = String::new();
            false
        } else {
            true
        }
    }

    /// Left/right: for effects that use the accent colour, steps through
    /// the colour presets with wrap-around and returns the colour to
    /// request; otherwise nothing changes.
    pub fn cycle_color(&mut self, dir: i32) -> (req: Option<String>)
        requires
            old(self).wf(),
        ensures
            final(self).wf(),
            !spec_uses_accent_color(old(self).effect@) ==> req is None && final(self).color_idx == old(self).color_idx
                && final(self).color == old(self).color,
            spec_uses_accent_color(old(self).effect@) ==> (final(self).color_idx == wrap_index(
                old(self).color_idx as int,
                dir as int,
                COLOR_PRESET_COUNT as int,
            ) && final(self).color@ == color_preset(final(self).color_idx as int) && (req matches Some(c)
                && c@ == final(self).color@)),
            final(self).effect == old(self).effect,
            final(self).fps == old(self).fps,
            final(self).sound_mode == old(self).sound_mode,
            final(self).fps_idx == old(self).fps_idx,
            final(self).list_cursor == old(self).list_cursor,
            final(self).list_scroll == old(self).list_scroll,
            final(self).digit_buf == old(self).digit_buf,
    {
        if !uses_accent_color(self.effect.as_str()) {
            return None;
        }
        self.color_idx = wrap(self.color_idx, dir, COLOR_PRESET_COUNT);
        self.color = owned(color_preset_at(self.color_idx));
        Some(self.color.clone())
    }

    /// `-` / `=`: steps through the frame-rate presets with wrap-around;
    /// returns the rate to request.
    pub fn cycle_fps(&mut self, dir: i32) -> (fps: u32)
        requires
            old(self).wf(),
        ensures
            final(self).wf(),
            final(self).fps_idx == wrap_index(old(self).fps_idx as int, dir as int, FPS_PRESET_COUNT as int),
            fps == fps_preset(final(self).fps_idx as int),
            final(self).fps == fps,
            final(self).effect == old(self).effect,
            final(self).color == old(self).color,
            final(self).sound_mode == old(self).sound_mode,
            final(self).color_idx == old(self).color_idx,
            final(self).list_cursor == old(self).list_cursor,
            final(self).list_scroll == old(self).list_scroll,
            final(self).digit_buf == old(self).digit_buf,
    {
        self.fps_idx = wrap(self.fps_idx, dir, FPS_PRESET_COUNT);
        self.fps = fps_preset_at(self.fps_idx);
        self.fps
    }

    /// Tab: the sound mode after the current one (`off`, `level`,
    /// `balance`, then `off` again; an unknown mode counts as `off`);
    /// returns the sound mode to request.
    pub fn cycle_sound_mode(&mut self) -> (req: String)
        requires
            old(self).wf(),
        ensures
            final(self).wf(),
            final(self).sound_mode@ == sound_mode_preset(
                (sound_mode_pos(old(self).sound_mode@) + 1) % (SOUND_MODE_COUNT as int),
            ),
            req@ == final(self).sound_mode@,
            final(self).effect == old(self).effect,
            final(self).color == old(self).color,
            final(self).fps == old(self).fps,
            final(self).color_idx == old(self).color_idx,
            final(self).fps_idx == old(self).fps_idx,
            final(self).list_cursor == old(self).list_cursor,
            final(self).list_scroll == old(self).list_scroll,
            final(self).digit_buf == old(self).digit_buf,
    {
        let mut pos: usize = 0;
        let mut i: usize = 0;
        let mut found = false;
        while i < SOUND_MODE_COUNT
            invariant
                i <= SOUND_MODE_COUNT,
                found ==> pos < i && sound_mode_preset(pos as int) == self.sound_mode@,
                !found ==> pos == 0,
                forall|j: int| 0 <= j < i && (!found || j < pos) ==> sound_mode_preset(j) != self.sound_mode@,
            decreases SOUND_MODE_COUNT - i,
        {
            if !found && str_eq(sound_mode_at(i), self.sound_mode.as_str()) {
                pos = i;
                found = true;
            }
            i += 1;
        }
        proof {
            reveal_strlit("off");
            reveal_strlit("level");
            reveal_strlit("balance");
            assert(pos as int == sound_mode_pos(self.sound_mode@));
        }
        let next = (pos + 1) % SOUND_MODE_COUNT;
        self.sound_mode = owned(sound_mode_at(next));
        self.sound_mode.clone()
    }
}

/// Where `s` stands among the sound modes; an unknown mode counts as the
/// first (`off`).
pub open spec fn sound_mode_pos(s: Seq<char>) -> int {
    if s == sound_mode_preset(0) {
        0
    } else if s == sound_mode_preset(1) {
        1
    } else if s == sound_mode_preset(2) {
        2
    } else {
        0
    }
}

/// Stepping the colour presets forward and then back returns to the preset
/// started from.
pub proof fn lemma_color_cycle_inverse(i: int)
    requires
        0 <= i < COLOR_PRESET_COUNT,
    ensures
        wrap_index(wrap_index(i, 1, COLOR_PRESET_COUNT as int), -1, COLOR_PRESET_COUNT as int) == i,
{
}

/// Stepping the frame-rate presets forward and then back returns to the
/// preset started from.
pub proof fn lemma_fps_cycle_inverse(i: int)
    requires
        0 <= i < FPS_PRESET_COUNT,
    ensures
        wrap_index(wrap_index(i, 1, FPS_PRESET_COUNT as int), -1, FPS_PRESET_COUNT as int) == i,
{
}

/// Moving the list cursor down and then up returns it to where it was.
pub proof fn lemma_list_cursor_inverse(i: int)
    requires
        0 <= i < MODE_COUNT,
    ensures
        wrap_index(wrap_index(i, 1, MODE_COUNT as int), -1, MODE_COUNT as int) == i,
{
}

/// One drawn entry of the effect list: its index, top row and height, and
/// whether it is the active effect and under the cursor.
#[derive(Debug, Clone, Copy, PartialEq, Eq, Structural)]
pub struct ListRow {
    pub idx: usize,
    pub y: u16,
    pub height: u16,
    pub active: bool,
    pub cursor: bool,
}

/// `v` saturated to the `u16` range.
pub open spec fn sat16(v: int) -> int {
    if v > u16::MAX { u16::MAX as int } else { v }
}

/// The entries drawn from entry `idx` on, the first at row `y`, above row
/// `bottom`: an entry is drawn while entries remain, the row is above the
/// bottom and the whole entry fits.
pub open spec fn list_layout(idx: int, y: int, bottom: int, effect: Seq<char>, cursor: int) -> Seq<ListRow>
    decreases MODE_COUNT - idx,
{
    if idx < 0 || idx >= MODE_COUNT || y >= bottom {
        Seq::empty()
    } else {
        let h = spec_item_height(idx, effect);
        if sat16(y + h) > bottom {
            Seq::empty()
        } else {
            seq![ListRow { idx: idx as usize, y: y as u16, height: h, active: ui_mode_name(idx) == effect, cursor: idx == cursor }]
                + list_layout(idx + 1, sat16(y + h), bottom, effect, cursor)
        }
    }
}

impl UiSelection {
    /// The entries of the effect list drawn in `height` rows starting at
    /// row `top`, from the first shown entry on; see [`list_layout`].
    pub fn list_rows_drawn(&self, top: u16, height: u16) -> (rows: Vec<ListRow>)
        requires
            self.wf(),
        ensures
            rows@ == list_layout(self.list_scroll as int, top as int, sat16(top + height), self.effect@, self.list_cursor as int),
    {
        let bottom = top.saturating_add(height);
        let mut rows: Vec<ListRow> = Vec::new();
        let mut y: u16 = top;
        let mut idx: usize = self.list_scroll;
        let ghost want = list_layout(self.list_scroll as int, top as int, bottom as int, self.effect@, self.list_cursor as int);
        while idx < MODE_COUNT && y < bottom
            invariant_except_break
                want == rows@ + list_layout(idx as int, y as int, bottom as int, self.effect@, self.list_cursor as int),
            invariant
                self.wf(),
                bottom == sat16(top + height),
                want == list_layout(self.list_scroll as int, top as int, bottom as int, self.effect@, self.list_cursor as int),
            ensures
                want == rows@,
            decreases MODE_COUNT - idx,
        {
            let h = item_height(idx, self.effect.as_str());
            if y.saturating_add(h) > bottom {
                assert(list_layout(idx as int, y as int, bottom as int, self.effect@, self.list_cursor as int) =~= Seq::<ListRow>::empty());
                assert(rows@ + Seq::<ListRow>::empty() =~= rows@);
                break;
            }
            let row = ListRow {
                idx,
                y,
                height: h,
                active: str_eq(mode_name_at(idx), self.effect.as_str()),
                cursor: idx == self.list_cursor,
            };
            let ghost before = rows@;
            rows.push(row);
            proof {
                let rest = list_layout(idx + 1, sat16(y + h), bottom as int, self.effect@, self.list_cursor as int);
                assert(list_layout(idx as int, y as int, bottom as int, self.effect@, self.list_cursor as int) == seq![row] + rest);
                assert(before + (seq![row] + rest) =~= rows@ + rest);
            }
            y = y.saturating_add(h);
            idx += 1;
        }
        proof {
            if !(idx < MODE_COUNT && y < bottom) {
                assert(list_layout(idx as int, y as int, bottom as int, self.effect@, self.list_cursor as int) =~= Seq::<ListRow>::empty());
                assert(rows@ + Seq::<ListRow>::empty() =~= rows@);
            }
        }
        rows
    }
}

/// How an entry's label is styled: the active effect stands out most, then
/// the screen modes, then the entry under the cursor.
#[derive(Debug, Clone, Copy, PartialEq, Eq, Structural)]
pub enum LabelStyle {
    Active,
    ScreenSync,
    Cursor,
    Plain,
}

/// The style of an entry's label.
pub fn label_style(is_active: bool, is_cursor: bool, screen_sync: bool) -> (s: LabelStyle)
    ensures
        s == (if is_active {
            LabelStyle::Active
        } else if screen_sync {
            LabelStyle::ScreenSync
        } else if is_cursor {
            LabelStyle::Cursor
        } else {
            LabelStyle::Plain
        }),
{
    if is_active {
        LabelStyle::Active
    } else if screen_sync {
        LabelStyle::ScreenSync
    } else if is_cursor {
        LabelStyle::Cursor
    } else {
        LabelStyle::Plain
    }
}

/// The status line of the panel: `OK · ` then the frame size when one is
/// known (`<width>x<height>`), else the detail; or `serial disconnected`.
pub open spec fn spec_status_line(serial_ok: bool, width: u32, height: u32, detail: Seq<char>) -> Seq<char> {
    if serial_ok {
        "OK · "@ + (if width > 0 { decimal(width as nat) + seq!['x'] + decimal(height as nat) } else { detail })
    } else {
        "serial disconnected"@
    }
}

/// The panel's status line; see [`spec_status_line`].
pub fn status_line(serial_ok: bool, width: u32, height: u32, detail: &str) -> (r: String)
    ensures
        r@ == spec_status_line(serial_ok, width, height, detail@),
{
    if !serial_ok {
        return owned("serial disconnected");
    }
    let mut s = owned("OK · ");
    if width > 0 {
        push_decimal(&mut s, width);
        proof { reveal_strlit("x"); }
        push_str(&mut s, "x");
        push_decimal(&mut s, height);
    } else {
        push_str(&mut s, detail);
    }
    assert(s@ =~= spec_status_line(serial_ok, width, height, detail@));
    s
}

/// A preset in a picker line: the selected one in brackets, the others
/// between spaces.
pub open spec fn spec_preset_label(text: Seq<char>, selected: bool) -> Seq<char> {
    if selected { seq!['['] + text + seq![']'] } else { seq![' '] + text + seq![' '] }
}

fn preset_label(text: &str, selected: bool) -> (r: String)
    ensures
        r@ == spec_preset_label(text@, selected),
{
    proof { reveal_strlit("["); reveal_strlit("]"); reveal_strlit(" "); }
    let (open, close) = if selected { ("[", "]") } else { (" ", " ") };
    let mut s = owned(open);
    push_str(&mut s, text);
    push_str(&mut s, close);
    assert(s@ =~= spec_preset_label(text@, selected));
    s
}

/// The label of the `i`-th frame-rate preset in the picker.
pub fn fps_preset_label(i: usize, selected: bool) -> (r: String)
    requires
        i < FPS_PRESET_COUNT,
    ensures
        r@ == spec_preset_label(decimal(fps_preset(i as int) as nat), selected),
{
    let mut t = String::new();
    push_decimal(&mut t, fps_preset_at(i));
    preset_label(t.as_str(), selected)
}

/// The label of the `i`-th colour preset in the picker: `rainbow` as is,
/// the others after a `#`.
pub fn color_preset_label(i: usize, selected: bool) -> (r: String)
    requires
        i < COLOR_PRESET_COUNT,
    ensures
        r@ == spec_preset_label(
            if i == COLOR_PRESET_COUNT - 1 { color_preset(i as int) } else { seq!['#'] + color_preset(i as int) },
            selected,
        ),
{
    let p = color_preset_at(i);
    if i == COLOR_PRESET_COUNT - 1 {
        preset_label(p, selected)
    } else {
        let mut t = owned("#");
        push_str(&mut t, p);
        proof { reveal_strlit("#"); }
        assert(t@ =~= seq!['#'] + color_preset(i as int));
        preset_label(t.as_str(), selected)
    }
}

/// The effect-list title's hint: ` → ` and the digits typed so far, if any.
pub fn pick_hint(digit_buf: &str) -> (r: String)
    ensures
        digit_buf@.len() == 0 ==> r@.len() == 0,
        digit_buf@.len() > 0 ==> r@ == " → "@ + digit_buf@,
{
    if digit_buf.unicode_len() == 0 {
        String::new()
    } else {
        let mut s = owned(" → ");
        push_str(&mut s, digit_buf);
        s
    }
}

/// Neither screen mode nor `off` uses the accent colour or the speed
/// control; every other effect uses the accent colour, and every effect
/// except `off`, `solid`, `sound_viz` and the screen modes uses the speed.
pub proof fn lemma_controls_per_effect(e: Seq<char>)
    ensures
        !spec_uses_accent_color("screen"@) && !spec_uses_accent_color("screen_center"@) && !spec_uses_accent_color("off"@),
        !spec_uses_speed("screen"@) && !spec_uses_speed("screen_center"@) && !spec_uses_speed("off"@),
        !spec_uses_speed("solid"@) && !spec_uses_speed("sound_viz"@),
        spec_is_screen_sync("screen"@) && spec_is_screen_sync("screen_center"@),
        e != "off"@ && e != "screen"@ && e != "screen_center"@ ==> spec_uses_accent_color(e),
        e != "off"@ && e != "screen"@ && e != "screen_center"@ && e != "solid"@ && e != "sound_viz"@ ==> spec_uses_speed(e),
        spec_is_screen_sync(e) <==> (e == "screen"@ || e == "screen_center"@),
{
    reveal_strlit("screen");
    reveal_strlit("screen_center");
    reveal_strlit("off");
    reveal_strlit("solid");
    reveal_strlit("sound_viz");
    assert("screen"@ =~= mode_name(EffectMode::Screen));
    assert("screen_center"@ =~= mode_name(EffectMode::ScreenCenter));
    assert("off"@ =~= mode_name(EffectMode::Off));
    assert("solid"@ =~= mode_name(EffectMode::Solid));
    assert("sound_viz"@ =~= mode_name(EffectMode::SoundViz));
}

/// Two typed digits pick the entry they number (counting from 1) when
/// there is one, and otherwise leave the cursor where it is.
pub proof fn lemma_two_digit_pick(a: char, b: char, cursor: int)
    requires
        is_digit(a),
        is_digit(b),
    ensures
        ({
            let v = 10 * (a as int - 48) + (b as int - 48);
            spec_digit_pick(seq![a, b], cursor) == (if 1 <= v <= 17 { v - 1 } else { cursor })
        }),
{
    let s = seq![a, b];
    assert(number_digits(s) == s);
    assert(s.drop_last() =~= seq![a]);
    assert(seq![a].drop_last() =~= Seq::<char>::empty());
    assert(digits_value(Seq::<char>::empty()) == 0);
    assert(seq![a].last() == a);
    assert(digits_value(seq![a]) == digits_value(Seq::<char>::empty()) * 10 + ((a as int - '0' as int) as nat));
    assert(digits_value(seq![a]) == (a as int - 48));
    assert(all_digits(s));
}

/// Scrolling to the cursor lands between where it started and the
/// cursor, shows the cursor's entry whole (unless the cursor's entry is the
/// first shown), and scrolls no further than needed.
pub proof fn lemma_settle_scroll(s: int, cursor: int, effect: Seq<char>, visible: int)
    requires
        s <= cursor,
    ensures
        ({
            let r = spec_settle_scroll(s, cursor, effect, visible);
            &&& s <= r <= cursor
            &&& (r == cursor || list_rows(r, cursor + 1, effect) <= visible)
            &&& forall|k: int| s <= k < r ==> #[trigger] list_rows(k, cursor + 1, effect) > visible
        }),
    decreases cursor - s,
{
    if !(s >= cursor || list_rows(s, cursor + 1, effect) <= visible) {
        lemma_settle_scroll(s + 1, cursor, effect, visible);
    }
}

/// The three sound modes are different, each is found at its own place,
/// and cycling from one gives the next (`off`, `level`, `balance`, `off`).
pub proof fn lemma_sound_cycle(i: int)
    requires
        0 <= i < 3,
    ensures
        sound_mode_pos(sound_mode_preset(i)) == i,
        sound_mode_preset((sound_mode_pos(sound_mode_preset(i)) + 1) % 3) == sound_mode_preset((i + 1) % 3),
        sound_mode_preset(0) == "off"@ && sound_mode_preset(1) == "level"@ && sound_mode_preset(2) == "balance"@,
{
    reveal_strlit("off");
    reveal_strlit("level");
    reveal_strlit("balance");
    assert(sound_mode_preset(0).len() == 3 && sound_mode_preset(1).len() == 5 && sound_mode_preset(2).len() == 7);
}

/// The entries drawn fit below each other inside the rows given: each
/// starts where the previous one ended, none reaches past the bottom, and
/// their indices follow on from the first. (At the very last terminal row,
/// `bottom == u16::MAX`, the saturating row arithmetic can draw an entry
/// past the bottom.)
pub proof fn lemma_layout_rows_fit(idx: int, y: int, bottom: int, effect: Seq<char>, cursor: int)
    requires
        0 <= y,
        bottom < u16::MAX,
    ensures
        ({
            let rows = list_layout(idx, y, bottom, effect, cursor);
            &&& forall|k: int| 0 <= k < rows.len() ==> #[trigger] rows[k].idx == idx + k
                && rows[k].y + rows[k].height <= bottom
                && (rows[k].height == 1 || rows[k].height == 3)
                && rows[k].active == (ui_mode_name(idx + k) == effect)
                && rows[k].cursor == (idx + k == cursor)
            &&& rows.len() > 0 ==> rows[0].y == y
            &&& forall|k: int| 0 <= k < rows.len() - 1 ==> #[trigger] rows[k + 1].y == rows[k].y + rows[k].height
        }),
    decreases MODE_COUNT - idx,
{
    if !(idx < 0 || idx >= MODE_COUNT || y >= bottom) {
        let h = spec_item_height(idx, effect);
        if sat16(y + h) <= bottom {
            lemma_layout_rows_fit(idx + 1, sat16(y + h), bottom, effect, cursor);
            let rest = list_layout(idx + 1, sat16(y + h), bottom, effect, cursor);
            let rows = list_layout(idx, y, bottom, effect, cursor);
            let row0 = ListRow { idx: idx as usize, y: y as u16, height: h, active: ui_mode_name(idx) == effect, cursor: idx == cursor };
            assert(rows == seq![row0] + rest);
            assert(y + h <= bottom && sat16(y + h) == y + h);
            assert(row0.y == y && row0.idx == idx);
            assert(h == 1 || h == 3);
            assert forall|k: int| 0 <= k < rows.len() implies #[trigger] rows[k].idx == idx + k
                && rows[k].y + rows[k].height <= bottom
                && (rows[k].height == 1 || rows[k].height == 3)
                && rows[k].active == (ui_mode_name(idx + k) == effect)
                && rows[k].cursor == (idx + k == cursor) by {
                if k > 0 {
                    assert(rows[k] == rest[k - 1]);
                    assert(rest[k - 1].idx == idx + 1 + (k - 1));
                } else {
                    assert(rows[0] == row0);
                }
            }
            assert forall|k: int| 0 <= k < rows.len() - 1 implies #[trigger] rows[k + 1].y == rows[k].y + rows[k].height by {
                assert(rows[k + 1] == rest[k]);
                if k > 0 {
                    assert(rows[k] == rest[k - 1]);
                    assert(rest[(k - 1) + 1].y == rest[k - 1].y + rest[k - 1].height);
                } else {
                    assert(rows[0] == row0);
                    assert(rest[0].y == y + h);
                }
            }
        }
    }
}

/// The distance between frame rates is symmetric, zero only between equal
/// rates, and the difference of the larger and the smaller.
pub proof fn lemma_abs_diff(a: u32, b: u32)
    ensures
        abs_diff(a, b) == abs_diff(b, a),
        abs_diff(a, b) == 0 <==> a == b,
        a >= b ==> abs_diff(a, b) == a - b,
{
}

/// Every entry of the effect list is found again at its own place.
pub proof fn lemma_mode_index_roundtrip(i: int)
    requires
        0 <= i < MODE_COUNT,
    ensures
        ui_mode_index(ui_mode_name(i)) == Some(i),
{
    let j = choose|j: int| 0 <= j < MODE_COUNT && ui_mode_name(j) == ui_mode_name(i);
    if j != i {
        lemma_ui_modes_distinct(i, j);
    }
}

} // verus!
