use hyper_sync::tray::{icon_path, icon_search_order, installed_icon_path, tray_icons, tui_launch_commands, IconError, TrayToggle};

#[test]
fn click_toggles_off_and_back() {
    let mut t = TrayToggle::new();
    assert_eq!(t.last_mode, "screen");
    assert_eq!(t.activate(Some("candle")), "off");
    assert_eq!(t.last_mode, "candle");
    assert_eq!(t.activate(Some("off")), "candle");
    assert_eq!(t.activate(None), "candle");
    assert_eq!(t.last_mode, "candle");
}

#[test]
fn icon_locations() {
    assert_eq!(installed_icon_path(Some("/d"), Some("/h")), "/d/icons/hyper-sync/hyper-hdr.png");
    assert_eq!(installed_icon_path(None, Some("/h")), "/h/.local/share/icons/hyper-sync/hyper-hdr.png");
    assert_eq!(installed_icon_path(None, None), ".local/share/icons/hyper-sync/hyper-hdr.png");
    assert_eq!(
        icon_search_order("/i.png", Some("/opt/bin")),
        vec!["/i.png", "/opt/bin/assets/hyper-hdr.png", "assets/hyper-hdr.png"]
    );
    assert_eq!(icon_path("/i.png", None, &vec![false, true]), "assets/hyper-hdr.png");
    assert_eq!(icon_path("/i.png", None, &vec![false, false]), "/i.png");
}

fn png_bytes(w: u32, h: u32) -> Vec<u8> {
    let img = image::RgbaImage::from_fn(w, h, |x, y| image::Rgba([(x * 40) as u8, (y * 40) as u8, 200, 255]));
    let mut out = std::io::Cursor::new(Vec::new());
    image::DynamicImage::ImageRgba8(img).write_to(&mut out, image::ImageFormat::Png).unwrap();
    out.into_inner()
}

#[test]
fn icons_are_scaled_copies() {
    let png = png_bytes(5, 3);
    let icons = tray_icons(&png).unwrap();
    assert_eq!(icons.len(), 2);
    assert_eq!((icons[0].width, icons[0].height), (22, 22));
    assert_eq!((icons[1].width, icons[1].height), (44, 44));
    assert_eq!(icons[0].data.len(), 22 * 22 * 4);
    assert_eq!(icons[1].data.len(), 44 * 44 * 4);
    let expected = image::load_from_memory(&png)
        .unwrap()
        .resize_exact(22, 22, image::imageops::FilterType::Triangle)
        .to_rgba8()
        .into_raw();
    assert_eq!(icons[0].data, expected);
    assert_ne!(icons[0].data, png);
}

#[test]
fn broken_icon_is_an_error() {
    match tray_icons(b"not a png") {
        Err(IconError::Decode(msg)) => assert!(!msg.is_empty()),
        Ok(_) => panic!("decoded garbage"),
    }
}

#[test]
fn terminals_tried_in_order() {
    let cmds = tui_launch_commands(Some("myterm"), "/bin/hs");
    let flat: Vec<String> = cmds.iter().map(|c| format!("{} {}", c.program, c.args.join(" "))).collect();
    assert_eq!(
        flat,
        vec![
            "myterm /bin/hs tui",
            "myterm -e /bin/hs tui",
            "konsole --new-tab -e /bin/hs tui",
            "kgx -e /bin/hs tui",
            "gnome-terminal -- /bin/hs tui",
            "xfce4-terminal -e /bin/hs tui",
            "alacritty -e /bin/hs tui",
            "foot -e /bin/hs tui",
            "wezterm start -- /bin/hs tui",
            "xterm -e /bin/hs tui",
        ]
    );
    assert_eq!(tui_launch_commands(None, "hs").len(), 8);
}
