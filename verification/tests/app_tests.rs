use wg_tui::app::{handle_key_input, Action, ActiveTab, App, AppEvent, Key, KeyPress};
use wg_tui::profiles::{IpInfo, VpnConfig};
use wg_tui::theme::Theme;

fn key(code: Key) -> KeyPress {
    KeyPress { code, ctrl: false }
}

fn ch(c: char) -> KeyPress {
    key(Key::Char(c))
}

fn vpn(name: &str) -> VpnConfig {
    VpnConfig { name: name.to_string(), conn_type: "wireguard".to_string(), is_active: false, is_default: false }
}

fn app_with(names: &[&str]) -> App {
    let mut app = App::new(Theme::mocha());
    app.handle_event(AppEvent::VpnListUpdated(names.iter().map(|n| vpn(n)).collect()));
    app
}

fn names(v: &[VpnConfig]) -> Vec<String> {
    v.iter().map(|x| x.name.clone()).collect()
}

#[test]
fn new_app_state() {
    let app = App::new(Theme::mocha());
    assert_eq!(app.status_msg, "Initialized. Loading connections...");
    assert_eq!(app.active_tab, ActiveTab::Connections);
    assert!(app.vpns.is_empty());
    assert_eq!(app.list_state.selected, None);
    assert!(!app.should_quit);
}

#[test]
fn vpn_list_update_filters_and_selects_first() {
    let app = app_with(&["home", "work"]);
    assert_eq!(names(&app.filtered_vpns), vec!["home", "work"]);
    assert_eq!(app.list_state.selected, Some(0));
}

#[test]
fn search_is_case_insensitive_substring() {
    let mut app = app_with(&["Home-WG", "Office VPN", "homelab"]);
    handle_key_input(&mut app, ch('/'));
    assert!(app.is_searching);
    for c in "HOME".chars() {
        handle_key_input(&mut app, ch(c));
    }
    assert_eq!(app.search_query, "HOME");
    assert_eq!(names(&app.filtered_vpns), vec!["Home-WG", "homelab"]);
    handle_key_input(&mut app, ch('x'));
    assert!(app.filtered_vpns.is_empty());
    assert_eq!(app.list_state.selected, None);
    handle_key_input(&mut app, key(Key::Backspace));
    assert_eq!(app.search_query, "HOME");
    assert_eq!(names(&app.filtered_vpns), vec!["Home-WG", "homelab"]);
    assert_eq!(app.list_state.selected, Some(0));
    handle_key_input(&mut app, key(Key::Enter));
    assert!(!app.is_searching);
}

#[test]
fn filter_clamps_selection() {
    let mut app = app_with(&["a1", "a2", "b1"]);
    app.list_state.selected = Some(2);
    app.search_query = "a".to_string();
    app.filter_vpns();
    assert_eq!(names(&app.filtered_vpns), vec!["a1", "a2"]);
    assert_eq!(app.list_state.selected, Some(1));
}

#[test]
fn backspace_on_empty_query() {
    let mut app = app_with(&["a"]);
    handle_key_input(&mut app, ch('/'));
    handle_key_input(&mut app, key(Key::Backspace));
    assert_eq!(app.search_query, "");
    assert_eq!(names(&app.filtered_vpns), vec!["a"]);
}

#[test]
fn select_wraps_both_ways() {
    let mut app = app_with(&["a", "b", "c"]);
    app.select_prev();
    assert_eq!(app.list_state.selected, Some(2));
    app.select_next();
    assert_eq!(app.list_state.selected, Some(0));
    handle_key_input(&mut app, ch('j'));
    handle_key_input(&mut app, key(Key::Down));
    assert_eq!(app.list_state.selected, Some(2));
    handle_key_input(&mut app, ch('k'));
    assert_eq!(app.list_state.selected, Some(1));
}

#[test]
fn select_on_empty_list_does_nothing() {
    let mut app = App::new(Theme::mocha());
    app.select_next();
    app.select_prev();
    assert_eq!(app.list_state.selected, None);
}

#[test]
fn select_in_import_view() {
    let mut app = App::new(Theme::mocha());
    app.handle_event(AppEvent::DownloadsUpdated(vec!["/d/a.conf".to_string(), "/d/b.conf".to_string()]));
    assert_eq!(app.download_list_state.selected, Some(0));
    handle_key_input(&mut app, ch('2'));
    handle_key_input(&mut app, ch('k'));
    assert_eq!(app.download_list_state.selected, Some(1));
    handle_key_input(&mut app, ch('j'));
    assert_eq!(app.download_list_state.selected, Some(0));
    match handle_key_input(&mut app, key(Key::Enter)) {
        Action::Import(p) => assert_eq!(p, "/d/a.conf"),
        _ => panic!("expected an import"),
    }
}

#[test]
fn downloads_update_keeps_selection() {
    let mut app = App::new(Theme::mocha());
    app.download_list_state.selected = Some(5);
    app.handle_event(AppEvent::DownloadsUpdated(vec!["/d/a.conf".to_string()]));
    assert_eq!(app.download_list_state.selected, Some(5));
    let mut app = App::new(Theme::mocha());
    app.handle_event(AppEvent::DownloadsUpdated(Vec::new()));
    assert_eq!(app.download_list_state.selected, None);
}

#[test]
fn ctrl_c_quits_from_any_mode() {
    let mut app = app_with(&["a"]);
    handle_key_input(&mut app, ch('/'));
    handle_key_input(&mut app, KeyPress { code: Key::Char('c'), ctrl: true });
    assert!(app.should_quit);
    assert_eq!(app.search_query, "");
}

#[test]
fn quit_popup_confirm_and_decline() {
    let mut app = App::new(Theme::mocha());
    handle_key_input(&mut app, ch('q'));
    assert!(app.show_quit_popup);
    handle_key_input(&mut app, ch('x'));
    assert!(app.show_quit_popup);
    handle_key_input(&mut app, ch('n'));
    assert!(!app.show_quit_popup);
    assert!(!app.should_quit);
    handle_key_input(&mut app, key(Key::Esc));
    assert!(app.show_quit_popup);
    handle_key_input(&mut app, ch('Y'));
    assert!(app.should_quit);
}

#[test]
fn help_popup_toggles() {
    let mut app = App::new(Theme::mocha());
    handle_key_input(&mut app, ch('?'));
    assert!(app.show_help_popup);
    handle_key_input(&mut app, ch('1'));
    assert!(app.show_help_popup);
    handle_key_input(&mut app, ch('?'));
    assert!(!app.show_help_popup);
    assert!(!app.show_quit_popup);
}

#[test]
fn tabs_cycle_and_direct_keys() {
    let mut app = App::new(Theme::mocha());
    handle_key_input(&mut app, key(Key::Tab));
    assert_eq!(app.active_tab, ActiveTab::Import);
    handle_key_input(&mut app, key(Key::Tab));
    handle_key_input(&mut app, key(Key::Tab));
    assert_eq!(app.active_tab, ActiveTab::Help);
    handle_key_input(&mut app, key(Key::Tab));
    assert_eq!(app.active_tab, ActiveTab::Connections);
    handle_key_input(&mut app, ch('h'));
    assert_eq!(app.active_tab, ActiveTab::Help);
    handle_key_input(&mut app, key(Key::Tab));
    assert_eq!(app.active_tab, ActiveTab::Connections);
    handle_key_input(&mut app, ch('3'));
    assert_eq!(app.active_tab, ActiveTab::PublicIp);
    handle_key_input(&mut app, ch('4'));
    assert_eq!(app.active_tab, ActiveTab::Help);
}

#[test]
fn reload_and_ip_keys() {
    let mut app = App::new(Theme::mocha());
    assert!(matches!(handle_key_input(&mut app, ch('r')), Action::Reload));
    assert_eq!(app.status_msg, "Reloaded config & refreshing status...");
    assert!(matches!(handle_key_input(&mut app, ch('i')), Action::FetchIpInfo));
    assert!(app.is_fetching_ip);
    assert_eq!(app.status_msg, "Fetching IP info...");
    app.handle_event(AppEvent::IpInfoUpdated(Some(IpInfo {
        ip: "1.2.3.4".to_string(),
        city: "Oslo".to_string(),
        country: "NO".to_string(),
        org: "ISP".to_string(),
    })));
    assert!(!app.is_fetching_ip);
    assert_eq!(app.ip_info.as_ref().map(|i| i.city.clone()), Some("Oslo".to_string()));
}

#[test]
fn default_and_toggle_actions() {
    let mut app = app_with(&["a", "b"]);
    handle_key_input(&mut app, ch('j'));
    match handle_key_input(&mut app, ch('d')) {
        Action::SetDefault { target, all } => {
            assert_eq!(target.name, "b");
            assert_eq!(names(&all), vec!["a", "b"]);
        },
        _ => panic!("expected a default request"),
    }
    match handle_key_input(&mut app, ch('l')) {
        Action::Toggle(v) => assert_eq!(v.name, "b"),
        _ => panic!("expected a toggle"),
    }
    handle_key_input(&mut app, ch('3'));
    assert!(matches!(handle_key_input(&mut app, ch('d')), Action::Nothing));
    assert!(matches!(handle_key_input(&mut app, key(Key::Enter)), Action::Nothing));
}

#[test]
fn actions_need_a_highlight() {
    let mut app = App::new(Theme::mocha());
    assert!(matches!(handle_key_input(&mut app, ch('d')), Action::Nothing));
    assert!(matches!(handle_key_input(&mut app, ch('l')), Action::Nothing));
}

#[test]
fn status_and_ping_events() {
    let mut app = App::new(Theme::mocha());
    assert!(matches!(app.handle_event(AppEvent::Tick), Action::Nothing));
    app.handle_event(AppEvent::StatusMsg("done".to_string()));
    assert_eq!(app.status_msg, "done");
    app.handle_event(AppEvent::PingResult(Some(12)));
    assert_eq!(app.ping_ms, Some(12));
    app.handle_event(AppEvent::PingResult(None));
    assert_eq!(app.ping_ms, None);
}

#[test]
fn key_events_route_to_keys() {
    let mut app = App::new(Theme::mocha());
    app.handle_event(AppEvent::Key(ch('?')));
    assert!(app.show_help_popup);
}

#[test]
fn refilter_twice_is_once() {
    let mut app = app_with(&["alpha", "beta", "alphabet"]);
    app.search_query = "ALPHA".to_string();
    app.list_state.selected = Some(7);
    app.filter_vpns();
    let first = (names(&app.filtered_vpns), app.list_state.selected);
    app.filter_vpns();
    assert_eq!((names(&app.filtered_vpns), app.list_state.selected), first);
    assert_eq!(first, (vec!["alpha".to_string(), "alphabet".to_string()], Some(1)));
}

#[test]
fn down_then_up_restores_highlight() {
    let mut app = app_with(&["a", "b", "c"]);
    for start in 0..3 {
        app.list_state.selected = Some(start);
        handle_key_input(&mut app, key(Key::Down));
        handle_key_input(&mut app, key(Key::Up));
        assert_eq!(app.list_state.selected, Some(start));
        handle_key_input(&mut app, ch('k'));
        handle_key_input(&mut app, ch('j'));
        assert_eq!(app.list_state.selected, Some(start));
    }
}

#[test]
fn highlight_stays_within_list() {
    let mut app = app_with(&["a", "b", "c"]);
    app.list_state.selected = Some(2);
    app.handle_event(AppEvent::VpnListUpdated(vec![vpn("x")]));
    assert_eq!(app.list_state.selected, Some(0));
    app.handle_event(AppEvent::VpnListUpdated(Vec::new()));
    assert_eq!(app.list_state.selected, None);
    handle_key_input(&mut app, key(Key::Down));
    assert_eq!(app.list_state.selected, None);
    app.handle_event(AppEvent::VpnListUpdated(vec![vpn("x"), vpn("y")]));
    assert_eq!(app.list_state.selected, Some(0));
}

#[test]
fn tab_then_h_restores_view() {
    let mut app = App::new(Theme::mocha());
    for _ in 0..4 {
        let before = app.active_tab;
        handle_key_input(&mut app, key(Key::Tab));
        assert_ne!(app.active_tab, before);
        handle_key_input(&mut app, ch('h'));
        assert_eq!(app.active_tab, before);
        handle_key_input(&mut app, key(Key::Tab));
    }
    assert_eq!(app.active_tab, ActiveTab::Connections);
}

#[test]
fn longer_query_narrows_result() {
    let mut app = app_with(&["home-wg", "Home office", "work", "homelab"]);
    handle_key_input(&mut app, ch('/'));
    let mut previous = names(&app.filtered_vpns);
    for c in "hom".chars() {
        handle_key_input(&mut app, ch(c));
        let now = names(&app.filtered_vpns);
        let kept: Vec<String> = previous.iter().filter(|n| now.contains(n)).cloned().collect();
        assert_eq!(kept, now);
        previous = now;
    }
    assert_eq!(previous, vec!["home-wg", "Home office", "homelab"]);
}

#[test]
fn key_overflow_only_at_the_last_position() {
    let mut app = app_with(&["a", "b"]);
    assert!(!app.key_would_overflow(key(Key::Down)));
    app.list_state.selected = Some(usize::MAX);
    assert!(app.key_would_overflow(key(Key::Down)));
    assert!(app.key_would_overflow(ch('j')));
    assert!(!app.key_would_overflow(key(Key::Up)));
    assert!(!app.key_would_overflow(KeyPress { code: Key::Char('c'), ctrl: true }));
    app.show_help_popup = true;
    assert!(!app.key_would_overflow(key(Key::Down)));
}
