use wg_tui::app::{handle_key_input, ActiveTab, App, AppEvent, Key, KeyPress};
use wg_tui::profiles::{IpInfo, VpnConfig};
use wg_tui::theme::Theme;
use wg_tui::view::{
    bracketed, connection_row, decimal, header_tab, import_row, ip_panel, pad_right, ping_label, profiles_title,
    scrollbar_span, search_bar_text, search_border_color, search_title, tab_label, IpPanel,
};

fn vpn(name: &str, active: bool, default: bool) -> VpnConfig {
    VpnConfig { name: name.to_string(), conn_type: "wireguard".to_string(), is_active: active, is_default: default }
}

#[test]
fn decimal_forms() {
    assert_eq!(decimal(0), "0");
    assert_eq!(decimal(7), "7");
    assert_eq!(decimal(10), "10");
    assert_eq!(decimal(1234567890), "1234567890");
    assert_eq!(decimal(u128::MAX), u128::MAX.to_string());
}

#[test]
fn padding_like_format_width() {
    assert_eq!(pad_right("ab", 5), "ab   ");
    assert_eq!(pad_right("abcdef", 3), "abcdef");
    assert_eq!(pad_right("", 2), "  ");
    assert_eq!(pad_right("é", 3), format!("{:<3}", "é"));
}

#[test]
fn tab_labels() {
    assert_eq!(tab_label("1", "Connections", true), " [1: Connections] ");
    assert_eq!(tab_label("3", "GeoIP", false), " 3: GeoIP ");
}

#[test]
fn search_texts() {
    let mut app = App::new(Theme::mocha());
    assert_eq!(search_title(&app), " Filter (Press '/' to search, 'd' to set Default) | Active:  ");
    assert_eq!(search_border_color(&app), app.theme.border);
    handle_key_input(&mut app, KeyPress { code: Key::Char('/'), ctrl: false });
    handle_key_input(&mut app, KeyPress { code: Key::Char('w'), ctrl: false });
    assert_eq!(search_title(&app), " Search Filter: 'w' [Esc: Clear] ");
    assert_eq!(search_bar_text(&app), " / w");
    assert_eq!(search_border_color(&app), app.theme.search);
}

#[test]
fn connection_rows() {
    let t = Theme::mocha();
    let r = connection_row(&vpn("home", true, true), &t);
    assert_eq!(r.name, format!(" {:<26} ", "home"));
    assert_eq!(r.conn_type, format!("{:<14} ", "wireguard"));
    assert_eq!(r.status, "● Active");
    assert_eq!(r.status_color, t.active);
    assert!(r.is_default);
    let r = connection_row(&vpn("office", false, false), &t);
    assert_eq!(r.status, "○ Inactive");
    assert_eq!(r.status_color, t.inactive);
    assert!(!r.is_default);
}

#[test]
fn profiles_title_counts() {
    let mut app = App::new(Theme::mocha());
    app.handle_event(AppEvent::VpnListUpdated(vec![vpn("a", false, false), vpn("b", false, false)]));
    assert_eq!(profiles_title(&app), " VPN Profiles (2/2) ");
    app.search_query = "a".to_string();
    app.filter_vpns();
    assert_eq!(profiles_title(&app), " VPN Profiles (1/2) ");
}

#[test]
fn import_rows() {
    let t = Theme::mocha();
    let vpns = vec![vpn("Home", false, false)];
    let r = import_row("home.conf", &vpns, &t);
    assert!(r.installed);
    assert_eq!(r.status, "✔ Installed");
    assert_eq!(r.status_color, t.active);
    assert_eq!(r.name, format!("{:<32} ", "home.conf"));
    let r = import_row("work.conf", &vpns, &t);
    assert!(!r.installed);
    assert_eq!(r.status, "○ Ready to Import");
    assert_eq!(r.status_color, t.text);
}

#[test]
fn scrollbar_spans() {
    assert_eq!(scrollbar_span(5, Some(3)), (4, 3));
    assert_eq!(scrollbar_span(0, None), (0, 0));
    assert_eq!(scrollbar_span(1, None), (0, 0));
}

#[test]
fn ip_panels() {
    let mut app = App::new(Theme::mocha());
    assert!(matches!(ip_panel(&app), IpPanel::Unavailable));
    app.ip_info = Some(IpInfo {
        ip: "1.1.1.1".to_string(),
        city: "c".to_string(),
        country: "k".to_string(),
        org: "o".to_string(),
    });
    match ip_panel(&app) {
        IpPanel::Known(i) => assert_eq!(i.ip, "1.1.1.1"),
        _ => panic!("expected known"),
    }
    app.is_fetching_ip = true;
    assert!(matches!(ip_panel(&app), IpPanel::Fetching));
}

#[test]
fn status_bar_texts() {
    assert_eq!(ping_label(Some(23)), "Ping: 23ms");
    assert_eq!(ping_label(None), "Ping: --");
    assert_eq!(bracketed("Ping: --"), "[Ping: --]  ");
}

#[test]
fn header_tab_marks_the_current_view() {
    let app = App::new(Theme::mocha());
    let cur = header_tab(&app, ActiveTab::Connections, "1", "Connections");
    assert_eq!(cur.text, " [1: Connections] ");
    assert_eq!(cur.color, app.theme.active);
    assert!(cur.bold);
    let other = header_tab(&app, ActiveTab::Import, "2", "Import");
    assert_eq!(other.text, " 2: Import ");
    assert_eq!(other.color, app.theme.text);
    assert!(!other.bold);
}
