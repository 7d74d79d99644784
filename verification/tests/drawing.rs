use rusty_gears::layout::{arrange, centre, Area};
use rusty_gears::models::{Config, FileToDownload, LocalVersionInfo, VersionManifest};
use rusty_gears::overlay::{
    can_draw_config, can_draw_input, can_draw_mod_input, config_window, draw_config_overlay,
    draw_input, draw_mod_input_overlay, mod_input_window,
};
use rusty_gears::screen::{
    active_border_style, draw_ui, render_log_panel, render_mods_panel, render_queue_panel, Colour,
};
use rusty_gears::string_map::StringMap;
use rusty_gears::tui::{InputMode, Key, TuiApp};

const SCREEN: Area = Area { x: 0, y: 0, width: 100, height: 40 };

fn app() -> TuiApp {
    let config = Config {
        username: "me".to_string(),
        password: "sécret".to_string(),
        last_login: String::new(),
        last_session_token: String::new(),
        use_tui: true,
        token_source: String::new(),
    };
    let mut m: VersionManifest = StringMap::new();
    for (name, version) in [("zeta", "1.0.0"), ("alpha", "0.2.0")] {
        m.insert(
            name.to_string(),
            LocalVersionInfo { version: version.to_string(), extension: "zip".to_string() },
        );
    }
    TuiApp::start(config, false, m)
}

#[test]
fn the_screen_is_arranged() {
    let p = arrange(SCREEN);
    assert_eq!(p.title, Area { x: 0, y: 0, width: 100, height: 1 });
    assert_eq!(p.bar, Area { x: 0, y: 39, width: 100, height: 1 });
    assert_eq!(p.mods, Area { x: 0, y: 1, width: 30, height: 38 });
    assert_eq!(p.queue, Area { x: 30, y: 1, width: 30, height: 38 });
    assert_eq!(p.log, Area { x: 60, y: 1, width: 40, height: 38 });
}

fn rounded(hundredths: u32) -> u16 {
    ((hundredths + 50) / 100) as u16
}

fn check_screen(area: Area) {
    let p = arrange(area);
    let (width, height) = (area.width as u32, area.height as u32);
    for part in [p.title, p.mods, p.queue, p.log, p.bar] {
        assert!(part.x >= area.x && part.x + part.width <= area.x + area.width);
        assert!(part.y >= area.y && part.y + part.height <= area.y + area.height);
    }
    assert_eq!(p.title.y, area.y);
    assert_eq!(p.mods.y, p.title.y + p.title.height);
    assert_eq!(p.bar.y, p.mods.y + p.mods.height);
    assert_eq!(p.bar.y + p.bar.height, area.y + area.height);
    if height >= 3 {
        assert_eq!((p.title.height, p.bar.height), (1, 1));
    } else {
        assert_eq!(p.mods.height, area.height.min(1));
    }
    assert_eq!((p.mods.x, p.mods.width), (area.x, rounded(30 * width)));
    assert_eq!(p.queue.x, p.mods.x + p.mods.width);
    assert_eq!(p.queue.x + p.queue.width, area.x + rounded(60 * width));
    assert_eq!(p.log.x, p.queue.x + p.queue.width);
    assert_eq!(p.log.x + p.log.width, area.x + area.width);
    for (lines, margin) in [(3u16, 40u16), (7, 35), (1, 0), (2, 10), (5, 50), (9, 90), (4, 200)] {
        let w = centre(area, lines, margin);
        assert!(w.y >= area.y && w.y + w.height <= area.y + area.height);
        assert_eq!(w.height, lines.min(area.height));
        if 2 * height * margin as u32 + 100 * lines as u32 <= 100 * height {
            assert_eq!(w.y, area.y + rounded(height * margin as u32));
        }
        assert_eq!(w.x, area.x + rounded(25 * width));
        assert_eq!(w.x + w.width, area.x + rounded(75 * width));
    }
}

#[test]
fn every_width_is_shared_out() {
    for width in 0..=250u16 {
        check_screen(Area { x: 3, y: 5, width, height: 24 });
    }
}

#[test]
fn every_height_is_shared_out() {
    for height in 0..=90u16 {
        check_screen(Area { x: 0, y: 0, width: 80, height });
    }
}

#[test]
fn windows_stand_in_the_middle() {
    let w = mod_input_window(SCREEN);
    assert_eq!((w.width, w.height), (50, 3));
    assert_eq!((w.x, w.y), (25, 16));
    let c = config_window(SCREEN);
    assert_eq!((c.width, c.height), (50, 7));
    assert_eq!((c.x, c.y), (25, 14));
}

#[test]
fn the_panel_of_the_mods() {
    let a = app();
    let panel = render_mods_panel(&a);
    assert_eq!(panel.title, " Local Mods (2) ");
    assert_eq!(panel.rows.len(), 2);
    let first: Vec<&str> = panel.rows[0].iter().map(|p| p.text.as_str()).collect();
    assert_eq!(first, vec!["alpha", "  ", "v0.2.0"]);
    assert_eq!(panel.rows[0][2].look.fg, Some(Colour::Yellow));
    assert_eq!(panel.rows[1][0].text, "zeta");
    assert_eq!(panel.border.fg, Some(Colour::Cyan));
    assert_eq!(panel.highlight.fg, Some(Colour::Black));
    assert_eq!(panel.highlight.bg, Some(Colour::Cyan));
    assert_eq!(panel.symbol, "> ");
    assert_eq!(panel.place.selected, Some(0));
}

#[test]
fn the_panel_of_the_queue() {
    let mut a = app();
    let panel = render_queue_panel(&a);
    assert_eq!(panel.title, " Download Queue (0) ");
    assert_eq!(panel.rows.len(), 1);
    assert_eq!(panel.rows[0][0].text, " None ");
    assert!(panel.rows[0][0].look.italic);
    assert_eq!(panel.border.fg, Some(Colour::DarkGray));
    assert_eq!(panel.highlight.bg, Some(Colour::DarkGray));
    a.download_queue.push(FileToDownload {
        base_name: "flib".to_string(),
        new_version: "1.2.3".to_string(),
        full_new_name: String::new(),
        download_url: String::new(),
    });
    a.handle_key(Key::Tab);
    let panel = render_queue_panel(&a);
    assert_eq!(panel.title, " Download Queue (1) ");
    let row: Vec<&str> = panel.rows[0].iter().map(|p| p.text.as_str()).collect();
    assert_eq!(row, vec!["flib", "  ", "v1.2.3"]);
    assert_eq!(panel.rows[0][2].look.fg, Some(Colour::Green));
    assert_eq!(panel.border.fg, Some(Colour::Cyan));
}

#[test]
fn the_panel_of_the_log() {
    let mut a = app();
    a.log_success("yes");
    a.log_error("no");
    let panel = render_log_panel(&a);
    assert_eq!(panel.title, " Status Log ");
    assert_eq!(panel.rows.len(), 5);
    assert_eq!(panel.rows[0][0].look.fg, Some(Colour::White));
    assert_eq!(panel.rows[3][0].look.fg, Some(Colour::Green));
    assert_eq!(panel.rows[4][0].look.fg, Some(Colour::Red));
    assert_eq!(panel.rows[4][0].text, "no");
    assert_eq!(panel.highlight.fg, None);
    assert_eq!(panel.highlight.bg, Some(Colour::DarkGray));
    assert_eq!(panel.symbol, "");
}

#[test]
fn borders() {
    assert_eq!(active_border_style(true).fg, Some(Colour::Cyan));
    assert_eq!(active_border_style(false).fg, Some(Colour::DarkGray));
}

#[test]
fn the_whole_screen() {
    let mut a = app();
    let screen = draw_ui(&a, SCREEN);
    assert_eq!(screen.title.text, " Rusty Gears v3 — Interactive Mode ");
    assert!(screen.title.look.bold);
    assert_eq!(
        screen.bar.text,
        " F1 Check  |  F2 Add Mod  |  F3 Auth  |  F4 Download All  |  c Config  |  r Reload  |  \
         Tab Focus  |  q Quit "
    );
    assert_eq!(screen.bar.look.bg, Some(Colour::Cyan));
    assert_eq!(screen.input, InputMode::Normal);
    assert_eq!(screen.mods.rows.len(), 2);
    assert_eq!(screen.log.rows.len(), 3);
    a.handle_key(Key::F(2));
    assert_eq!(draw_ui(&a, SCREEN).input, InputMode::AddingMod);
}

#[test]
fn the_window_of_a_mods_name() {
    let mut a = app();
    a.handle_key(Key::F(2));
    for c in "né".chars() {
        a.handle_key(Key::Char(c));
    }
    let window = mod_input_window(SCREEN);
    assert!(can_draw_mod_input(&a, window));
    let overlay = draw_mod_input_overlay(&a, window);
    assert_eq!(overlay.title, " Add New Mod ");
    assert_eq!(overlay.rows[0][0].text, "né");
    // Two characters, three bytes.
    assert_eq!((overlay.cursor_x, overlay.cursor_y), (window.x + 1 + 3, window.y + 1));
    let narrow = Area { x: 10, y: 4, width: 3, height: 3 };
    let overlay = draw_mod_input_overlay(&a, narrow);
    assert_eq!((overlay.cursor_x, overlay.cursor_y), (11, 5));
    let edge = Area { x: u16::MAX - 1, y: 4, width: 1, height: 3 };
    assert!(!can_draw_mod_input(&a, edge));
}

#[test]
fn windows_keep_their_height_on_low_screens() {
    for height in 0..=30u16 {
        let area = Area { x: 0, y: 0, width: 80, height };
        assert_eq!(config_window(area).height, height.min(7));
        assert_eq!(mod_input_window(area).height, height.min(3));
    }
}

#[test]
fn the_lines_of_a_mods_name() {
    let mut a = app();
    a.handle_key(Key::F(2));
    let window = mod_input_window(SCREEN);
    let rows = |a: &TuiApp| -> Vec<String> {
        let overlay = draw_mod_input_overlay(a, window);
        overlay.rows.iter().map(|r| r[0].text.clone()).collect()
    };
    assert_eq!(rows(&a), vec![""]);
    for c in "a\r\nb\n\nc".chars() {
        a.handle_key(Key::Char(c));
    }
    assert_eq!(rows(&a), vec!["a", "b", "", "c"]);
}

#[test]
fn the_window_that_is_shown() {
    let mut a = app();
    assert!(can_draw_input(&a, SCREEN));
    assert!(draw_input(&a, SCREEN).is_none());
    a.handle_key(Key::F(2));
    assert!(can_draw_input(&a, SCREEN));
    let (window, overlay) = draw_input(&a, SCREEN).unwrap();
    assert_eq!(window, mod_input_window(SCREEN));
    assert_eq!(overlay.title, " Add New Mod ");
    a.handle_key(Key::Esc);
    a.handle_key(Key::Char('c'));
    let (window, overlay) = draw_input(&a, SCREEN).unwrap();
    assert_eq!(window, config_window(SCREEN));
    assert_eq!(overlay.title, " Edit Config ");
    let corner = Area { x: u16::MAX - 4, y: 0, width: 4, height: 20 };
    assert!(!can_draw_input(&a, corner));
    let below = Area { x: 0, y: u16::MAX, width: 80, height: 0 };
    assert!(!can_draw_input(&a, below));
}

#[test]
fn the_window_of_the_config() {
    let mut a = app();
    a.handle_key(Key::Char('c'));
    let window = config_window(SCREEN);
    assert!(can_draw_config(&a, window));
    let overlay = draw_config_overlay(&a, window);
    assert_eq!(overlay.title, " Edit Config ");
    assert_eq!(overlay.rows.len(), 4);
    assert_eq!(overlay.rows[0][0].text, " Username: ");
    assert_eq!(overlay.rows[0][1].text, "me");
    assert_eq!(overlay.rows[0][1].look.fg, Some(Colour::Cyan));
    assert_eq!(overlay.rows[1][0].text, " Password: ");
    assert_eq!(overlay.rows[1][1].text, "*******");
    assert_eq!(overlay.rows[1][1].look.fg, Some(Colour::Gray));
    assert_eq!(
        overlay.rows[3][0].text,
        " Tab: switch field  |  Enter: save  |  Esc: cancel "
    );
    assert_eq!((overlay.cursor_x, overlay.cursor_y), (window.x + 12 + 2, window.y + 1));
    a.handle_key(Key::Tab);
    let overlay = draw_config_overlay(&a, window);
    assert_eq!((overlay.cursor_x, overlay.cursor_y), (window.x + 12 + 7, window.y + 2));
    assert_eq!(overlay.rows[1][1].look.fg, Some(Colour::Cyan));
}
