use wg_tui::theme::{color_text_is_sliceable, parse_hex_color, Color, Theme, ThemeConfig};

fn empty_config() -> ThemeConfig {
    ThemeConfig {
        border: None,
        title: None,
        active: None,
        inactive: None,
        text: None,
        highlight_bg: None,
        highlight_fg: None,
        accent: None,
        default_tag: None,
        search: None,
        status: None,
    }
}

#[test]
fn hex_color_plain() {
    assert_eq!(parse_hex_color("#cba6f7"), Color::Rgb(203, 166, 247));
    assert_eq!(parse_hex_color("313244"), Color::Rgb(49, 50, 68));
}

#[test]
fn hex_color_trims_and_strips_hashes() {
    assert_eq!(parse_hex_color("  ##CBA6F7 \t\n"), Color::Rgb(203, 166, 247));
    assert_eq!(parse_hex_color("\u{a0}#00ff7F\u{3000}"), Color::Rgb(0, 255, 127));
}

#[test]
fn hex_color_plus_signed_pairs() {
    assert_eq!(parse_hex_color("+f+f+f"), Color::Rgb(15, 15, 15));
    assert_eq!(parse_hex_color("-fffff"), Color::Reset);
    assert_eq!(parse_hex_color("++ffff"), Color::Reset);
}

#[test]
fn hex_color_rejects_bad_input() {
    assert_eq!(parse_hex_color(""), Color::Reset);
    assert_eq!(parse_hex_color("#abc"), Color::Reset);
    assert_eq!(parse_hex_color("#1234567"), Color::Reset);
    assert_eq!(parse_hex_color("#gg0000"), Color::Reset);
    assert_eq!(parse_hex_color("#12 456"), Color::Reset);
    assert_eq!(parse_hex_color("\u{e9}\u{e9}ab"), Color::Reset);
}

#[test]
fn default_mocha_strings() {
    let c = ThemeConfig::default_mocha();
    assert_eq!(c.border.as_deref(), Some("#cba6f7"));
    assert_eq!(c.title.as_deref(), Some("#f5c2e7"));
    assert_eq!(c.active.as_deref(), Some("#a6e3a1"));
    assert_eq!(c.inactive.as_deref(), Some("#f38ba8"));
    assert_eq!(c.text.as_deref(), Some("#cdd6f4"));
    assert_eq!(c.highlight_bg.as_deref(), Some("#313244"));
    assert_eq!(c.highlight_fg.as_deref(), Some("#f9e2af"));
    assert_eq!(c.accent.as_deref(), Some("#89b4fa"));
    assert_eq!(c.default_tag.as_deref(), Some("#fab387"));
    assert_eq!(c.search.as_deref(), Some("#74c7ec"));
    assert_eq!(c.status.as_deref(), Some("#a6adc8"));
}

#[test]
fn mocha_theme_colors() {
    let t = Theme::mocha();
    assert_eq!(t.border, Color::Rgb(203, 166, 247));
    assert_eq!(t.title, Color::Rgb(245, 194, 231));
    assert_eq!(t.active, Color::Rgb(166, 227, 161));
    assert_eq!(t.inactive, Color::Rgb(243, 139, 168));
    assert_eq!(t.text, Color::Rgb(205, 214, 244));
    assert_eq!(t.highlight_bg, Color::Rgb(49, 50, 68));
    assert_eq!(t.highlight_fg, Color::Rgb(249, 226, 175));
    assert_eq!(t.accent, Color::Rgb(137, 180, 250));
    assert_eq!(t.default_tag, Color::Rgb(250, 179, 135));
    assert_eq!(t.search, Color::Rgb(116, 199, 236));
    assert_eq!(t.status, Color::Rgb(166, 173, 200));
}

#[test]
fn mocha_config_fixes_any_theme() {
    let mut t = Theme::mocha();
    t.border = Color::Reset;
    t.accent = Color::Rgb(1, 2, 3);
    t.apply_config(ThemeConfig::default_mocha());
    assert_eq!(t, Theme::mocha());
}

#[test]
fn apply_config_replaces_present_entries_only() {
    let mut t = Theme::mocha();
    let mut cfg = empty_config();
    cfg.border = Some("#000000".to_string());
    cfg.search = Some("nonsense".to_string());
    t.apply_config(cfg);
    assert_eq!(t.border, Color::Rgb(0, 0, 0));
    assert_eq!(t.search, Color::Reset);
    assert_eq!(t.title, Color::Rgb(245, 194, 231));
}

#[test]
fn empty_config_keeps_theme() {
    let mut t = Theme::mocha();
    t.apply_config(empty_config());
    assert_eq!(t, Theme::mocha());
}

#[test]
fn apply_config_twice_is_once() {
    let mk = || {
        let mut cfg = empty_config();
        cfg.accent = Some("#102030".to_string());
        cfg.text = Some("zz".to_string());
        cfg
    };
    let mut once = Theme::mocha();
    once.apply_config(mk());
    let mut twice = Theme::mocha();
    twice.apply_config(mk());
    twice.apply_config(mk());
    assert_eq!(once, twice);
    assert_eq!(once.accent, Color::Rgb(16, 32, 48));
    assert_eq!(once.text, Color::Reset);
}

#[test]
fn load_or_default_with_and_without_file() {
    assert_eq!(Theme::load_or_default(None), Theme::mocha());
    let mut cfg = empty_config();
    cfg.status = Some(" #ffffff ".to_string());
    let t = Theme::load_or_default(Some(cfg));
    assert_eq!(t.status, Color::Rgb(255, 255, 255));
    assert_eq!(t.border, Color::Rgb(203, 166, 247));
}

#[test]
fn color_text_sliceability() {
    assert!(color_text_is_sliceable("#cba6f7"));
    assert!(color_text_is_sliceable("  ##abc  "));
    assert!(color_text_is_sliceable("é"));
    // A six-byte body whose second byte is inside a two-byte character.
    assert!(!color_text_is_sliceable("#aébcd"));
    // Six bytes cut on boundaries: "é" takes bytes 2 and 3.
    assert!(color_text_is_sliceable("#abéxy"));
}

#[test]
fn config_sliceability() {
    assert!(empty_config().is_sliceable());
    assert!(ThemeConfig::default_mocha().is_sliceable());
    let mut c = empty_config();
    c.status = Some("#aébcd".to_string());
    assert!(!c.is_sliceable());
}
