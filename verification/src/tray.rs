//! The tray icon's own logic: what a click toggles, where its icon image is
//! looked for and how it is scaled, and which terminals are tried to open
//! the control panel.

use vstd::prelude::*;
use crate::config::{opt_view, spec_base_dir};
use crate::text::{first_existing, join_path, owned, spec_first_existing, spec_join, str_eq};

verus! {

/// What the tray remembers between clicks: the effect to bring back.
#[derive(Debug)]
pub struct TrayToggle {
    pub last_mode: String,
}

impl TrayToggle {
    /// A tray that brings back screen sync on its first click from off.
    pub fn new() -> (t: TrayToggle)
        ensures
            t.last_mode@ == "screen"@,
    {
        TrayToggle { last_mode: owned("screen") }
    }

    /// A left click, given the effect the daemon reports (`None` when it
    /// does not answer, which counts as `off`); see [`spec_toggle`].
    /// Returns the mode to request.
    pub fn activate(&mut self, current: Option<&str>) -> (req: String)
        ensures
            (final(self).last_mode@, req@) == spec_toggle(old(self).last_mode@, opt_view(current)),
    {
        match current {
            Some(c) => {
                if str_eq(c, "off") {
                    self.last_mode.clone()
                } else {
                    self.last_mode = owned(c);
                    owned("off")
                }
            },
            None => self.last_mode.clone(),
        }
    }
}

/// A click with remembered effect `last` while the daemon reports
/// `current`: from `off` (or no answer) it asks for `last` and keeps it;
/// from any other effect it remembers that effect and asks for `off`.
/// The result is the new remembered effect and the mode to request.
pub open spec fn spec_toggle(last: Seq<char>, current: Option<Seq<char>>) -> (Seq<char>, Seq<char>) {
    match current {
        Some(c) => if c == "off"@ { (last, last) } else { (c, "off"@) },
        None => (last, last),
    }
}

/// Two clicks from a running effect switch it off and then bring back that
/// very effect.
pub proof fn lemma_toggle_twice(last: Seq<char>, effect: Seq<char>)
    requires
        effect != "off"@,
    ensures
        spec_toggle(last, Some(effect)).1 == "off"@,
        spec_toggle(spec_toggle(last, Some(effect)).0, Some("off"@)).1 == effect,
{
}

/// Characters of `.local/share`.
pub open spec fn local_share_chars() -> Seq<char> {
    seq!['.', 'l', 'o', 'c', 'a', 'l', '/', 's', 'h', 'a', 'r', 'e']
}

/// Characters of `icons/hyper-sync/hyper-hdr.png`.
pub open spec fn installed_icon_rel() -> Seq<char> {
    seq!['i', 'c', 'o', 'n', 's', '/'] + seq!['h', 'y', 'p', 'e', 'r', '-', 's', 'y', 'n', 'c', '/'] + seq![
        'h', 'y', 'p', 'e', 'r', '-', 'h', 'd', 'r', '.', 'p', 'n', 'g'
    ]
}

/// Characters of `assets/hyper-hdr.png`.
pub open spec fn bundled_icon_rel() -> Seq<char> {
    seq!['a', 's', 's', 'e', 't', 's', '/'] + seq!['h', 'y', 'p', 'e', 'r', '-', 'h', 'd', 'r', '.', 'p', 'n', 'g']
}

/// Where the installed icon lives: under `$XDG_DATA_HOME`, else
/// `$HOME/.local/share`, else `.local/share`.
pub open spec fn spec_installed_icon(xdg_data_home: Option<Seq<char>>, home: Option<Seq<char>>) -> Seq<char> {
    spec_join(spec_base_dir(xdg_data_home, home, local_share_chars()), installed_icon_rel())
}

/// The installed icon's path from `XDG_DATA_HOME` and `HOME`; see
/// [`spec_installed_icon`].
pub fn installed_icon_path(xdg_data_home: Option<&str>, home: Option<&str>) -> (r: String)
    ensures
        r@ == spec_installed_icon(opt_view(xdg_data_home), opt_view(home)),
{
    let share = ".local/share";
    let rel = "icons/hyper-sync/hyper-hdr.png";
    proof {
        reveal_strlit(".local/share");
        reveal_strlit("icons/hyper-sync/hyper-hdr.png");
        assert(share@ =~= local_share_chars());
        assert(rel@ =~= installed_icon_rel());
    }
    let base = match xdg_data_home {
        Some(d) => owned(d),
        None => match home {
            Some(h) => join_path(h, share),
            None => owned(share),
        },
    };
    join_path(base.as_str(), rel)
}

/// Where the icon is looked for, in order: the installed icon, the bundled
/// one next to the executable (when its directory is known), and the
/// bundled one under the working directory.
pub open spec fn icon_candidates(installed: Seq<char>, exe_dir: Option<Seq<char>>) -> Seq<Seq<char>> {
    let from_exe = match exe_dir {
        Some(d) => seq![spec_join(d, bundled_icon_rel())],
        None => Seq::empty(),
    };
    seq![installed] + from_exe + seq![bundled_icon_rel()]
}

/// The places to look for the icon; see [`icon_candidates`].
pub fn icon_search_order(installed: &str, exe_dir: Option<&str>) -> (v: Vec<String>)
    ensures
        v@.map_values(|c: String| c@) == icon_candidates(installed@, opt_view(exe_dir)),
{
    let rel = "assets/hyper-hdr.png";
    proof {
        reveal_strlit("assets/hyper-hdr.png");
        assert(rel@ =~= bundled_icon_rel());
    }
    let mut v: Vec<String> = Vec::new();
    v.push(owned(installed));
    if let Some(d) = exe_dir {
        v.push(join_path(d, rel));
    }
    v.push(owned(rel));
    assert(v@.map_values(|c: String| c@) =~= icon_candidates(installed@, opt_view(exe_dir)));
    v
}

/// The icon to load: the first of [`icon_candidates`] that exists
/// (`exists[i]` tells whether the `i`-th does), else the installed path.
pub fn icon_path(installed: &str, exe_dir: Option<&str>, exists: &Vec<bool>) -> (r: String)
    requires
        exists@.len() == icon_candidates(installed@, opt_view(exe_dir)).len(),
    ensures
        r@ == spec_first_existing(icon_candidates(installed@, opt_view(exe_dir)), exists@, installed@),
{
    let cands = icon_search_order(installed, exe_dir);
    first_existing(&cands, exists, installed)
}

/// The error type of the `image` crate.
#[verifier::external_type_specification]
#[verifier::external_body]
pub struct ExImageError(image::ImageError);

/// Whether `image` decodes these bytes as a PNG image.
pub uninterp spec fn png_decodes(png: Seq<u8>) -> bool;

/// The RGBA8 pixels, row by row, of the PNG image `png` scaled to
/// `size` by `size` pixels with the triangle filter, as `image` computes
/// them.
pub uninterp spec fn scaled_rgba(png: Seq<u8>, size: u32) -> Seq<u8>;

/// Decodes `png` as a PNG image (`image::load_from_memory_with_format`),
/// scales it to `size` by `size` pixels (`DynamicImage::resize_exact` with
/// `FilterType::Triangle`) and returns its RGBA8 bytes (`to_rgba8`,
/// `into_raw`). Claimed: it fails exactly when decoding fails
/// ([`png_decodes`]), and otherwise returns [`scaled_rgba`] of its
/// arguments.
#[verifier::external_body]
fn png_to_rgba(png: &[u8], size: u32) -> (r: Result<Vec<u8>, image::ImageError>)
    requires
        0 < size <= 1024,
    ensures
        match r {
            Ok(d) => png_decodes(png@) && d@ == scaled_rgba(png@, size),
            Err(_) => !png_decodes(png@),
        },
{
    let img = image::load_from_memory_with_format(png, image::ImageFormat::Png)?;
    Ok(img.resize_exact(size, size, image::imageops::FilterType::Triangle).to_rgba8().into_raw())
}

/// The text of an `image` error (its `Display`). Nothing is claimed of the
/// text.
#[verifier::external_body]
fn image_error_text(e: &image::ImageError) -> String {
    format!("{e}")
}

/// A square tray icon: RGBA8 pixels, row by row.
#[derive(Debug)]
pub struct TrayIcon {
    pub width: i32,
    pub height: i32,
    pub data: Vec<u8>,
}

/// Why the icon could not be made: the decoder's message.
#[derive(Debug)]
pub enum IconError {
    Decode(String),
}

/// The sizes, in pixels, of the icons offered to the tray.
pub open spec fn icon_size(i: int) -> u32 {
    if i == 0 { 22 } else { 44 }
}

/// The tray's icons from the PNG file's bytes: the image scaled to 22 and
/// to 44 pixels square, in that order; an error exactly when the bytes do
/// not decode.
pub fn tray_icons(png: &[u8]) -> (r: Result<Vec<TrayIcon>, IconError>)
    ensures
        r is Ok <==> png_decodes(png@),
        r matches Ok(v) ==> v@.len() == 2 && forall|i: int| 0 <= i < 2 ==> #[trigger] v@[i].width == icon_size(i)
            && v@[i].height == icon_size(i) && v@[i].data@ == scaled_rgba(png@, icon_size(i)),
{
    let small = match png_to_rgba(png, 22) {
        Ok(d) => d,
        Err(e) => {
            return Err(IconError::Decode(image_error_text(&e)));
        },
    };
    let large = match png_to_rgba(png, 44) {
        Ok(d) => d,
        Err(e) => {
            return Err(IconError::Decode(image_error_text(&e)));
        },
    };
    let mut v: Vec<TrayIcon> = Vec::new();
    v.push(TrayIcon { width: 22, height: 22, data: small });
    v.push(TrayIcon { width: 44, height: 44, data: large });
    assert forall|i: int| 0 <= i < 2 implies #[trigger] v@[i].width == icon_size(i) && v@[i].height == icon_size(i)
        && v@[i].data@ == scaled_rgba(png@, icon_size(i)) by {}
    Ok(v)
}

/// A program to start, with its arguments.
#[derive(Debug)]
pub struct LaunchCommand {
    pub program: String,
    pub args: Vec<String>,
}

impl View for LaunchCommand {
    type V = (Seq<char>, Seq<Seq<char>>);

    open spec fn view(&self) -> (Seq<char>, Seq<Seq<char>>) {
        (self.program@, self.args@.map_values(|a: String| a@))
    }
}

/// `program` run with `prefix` followed by the executable and `tui`.
pub open spec fn launch_spec(program: Seq<char>, prefix: Seq<Seq<char>>, exe: Seq<char>) -> (Seq<char>, Seq<Seq<char>>) {
    (program, prefix + seq![exe, "tui"@])
}

fn launch(program: &str, prefix: &[&str], exe: &str) -> (c: LaunchCommand)
    ensures
        c@ == launch_spec(program@, prefix@.map_values(|p: &str| p@), exe@),
{
    let mut args: Vec<String> = Vec::new();
    let mut i: usize = 0;
    while i < prefix.len()
        invariant
            i <= prefix@.len(),
            args@.len() == i,
            forall|k: int| 0 <= k < i ==> #[trigger] args@[k]@ == prefix@[k]@,
        decreases prefix@.len() - i,
    {
        args.push(owned(prefix[i]));
        i += 1;
    }
    args.push(owned(exe));
    args.push(owned("tui"));
    let c = LaunchCommand { program: owned(program), args };
    let ghost want = launch_spec(program@, prefix@.map_values(|p: &str| p@), exe@);
    assert(c@.1.len() == want.1.len());
    assert forall|k: int| 0 <= k < want.1.len() implies #[trigger] c@.1[k] == want.1[k] by {
        if k < prefix@.len() {
            assert(c.args@[k]@ == prefix@[k]@);
        }
    }
    assert(c@.1 =~= want.1);
    c
}

/// The terminals tried, in order, to open the control panel: `$TERMINAL`
/// (when set) with the executable and `tui`, then again with `-e` before
/// them; then konsole, kgx, gnome-terminal, xfce4-terminal, alacritty,
/// foot, wezterm and xterm, each with its own way to run a command.
pub open spec fn tui_launch_plan(terminal: Option<Seq<char>>, exe: Seq<char>) -> Seq<(Seq<char>, Seq<Seq<char>>)> {
    let from_env = match terminal {
        Some(t) => seq![launch_spec(t, Seq::empty(), exe), launch_spec(t, seq!["-e"@], exe)],
        None => Seq::empty(),
    };
    from_env + seq![
        launch_spec("konsole"@, seq!["--new-tab"@, "-e"@], exe),
        launch_spec("kgx"@, seq!["-e"@], exe),
        launch_spec("gnome-terminal"@, seq!["--"@], exe),
        launch_spec("xfce4-terminal"@, seq!["-e"@], exe),
        launch_spec("alacritty"@, seq!["-e"@], exe),
        launch_spec("foot"@, seq!["-e"@], exe),
        launch_spec("wezterm"@, seq!["start"@, "--"@], exe),
        launch_spec("xterm"@, seq!["-e"@], exe),
    ]
}

/// The commands to try, in order, to open the control panel in a new
/// terminal window, given `$TERMINAL` and the executable's path; see
/// [`tui_launch_plan`]. The first that starts is used.
pub fn tui_launch_commands(terminal: Option<&str>, exe: &str) -> (v: Vec<LaunchCommand>)
    ensures
        v@.map_values(|c: LaunchCommand| c@) == tui_launch_plan(opt_view(terminal), exe@),
{
    let mut v: Vec<LaunchCommand> = Vec::new();
    if let Some(t) = terminal {
        let none: [&str; 0] = [];
        v.push(launch(t, &none, exe));
        v.push(launch(t, &["-e"], exe));
    }
    v.push(launch("konsole", &["--new-tab", "-e"], exe));
    v.push(launch("kgx", &["-e"], exe));
    v.push(launch("gnome-terminal", &["--"], exe));
    v.push(launch("xfce4-terminal", &["-e"], exe));
    v.push(launch("alacritty", &["-e"], exe));
    v.push(launch("foot", &["-e"], exe));
    v.push(launch("wezterm", &["start", "--"], exe));
    v.push(launch("xterm", &["-e"], exe));
    proof {
        let want = tui_launch_plan(opt_view(terminal), exe@);
        let got = v@.map_values(|c: LaunchCommand| c@);
        assert(got.len() == want.len());
        assert forall|k: int| 0 <= k < want.len() implies #[trigger] got[k] == want[k] by {
            assert(got[k] == v@[k]@);
        }
        assert(got =~= want);
    }
    v
}

/// A click while the daemon does not answer counts as a click while off:
/// the remembered effect is asked for and kept.
pub proof fn lemma_no_answer_is_off(last: Seq<char>)
    ensures
        spec_toggle(last, None) == spec_toggle(last, Some("off"@)),
        spec_toggle(last, None) == (last, last),
{
}

} // verus!
