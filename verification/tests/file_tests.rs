use wg_tui::files::{extension, file_stem, is_config_file, is_installed};
use wg_tui::profiles::VpnConfig;

#[test]
fn extension_like_path() {
    assert_eq!(extension("wg0.conf"), Some("conf".to_string()));
    assert_eq!(extension("a.b.wireguard"), Some("wireguard".to_string()));
    assert_eq!(extension("a."), Some("".to_string()));
    assert_eq!(extension(".conf"), None);
    assert_eq!(extension("noext"), None);
    assert_eq!(extension(".."), None);
    assert_eq!(extension(".a.b"), Some("b".to_string()));
}

#[test]
fn stem_like_path() {
    assert_eq!(file_stem("wg0.conf"), "wg0");
    assert_eq!(file_stem("a.b.conf"), "a.b");
    assert_eq!(file_stem(".conf"), ".conf");
    assert_eq!(file_stem("noext"), "noext");
    assert_eq!(file_stem(".."), "..");
}

#[test]
fn config_files() {
    assert!(is_config_file("home.conf"));
    assert!(is_config_file("home.wireguard"));
    assert!(!is_config_file("home.CONF"));
    assert!(!is_config_file(".conf"));
    assert!(!is_config_file("home.conf.bak"));
    assert!(!is_config_file("conf"));
}

#[test]
fn installed_ignores_case() {
    let vpns = vec![VpnConfig {
        name: "Home-WG".to_string(),
        conn_type: "wireguard".to_string(),
        is_active: false,
        is_default: false,
    }];
    assert!(is_installed("home-wg.conf", &vpns));
    assert!(is_installed("HOME-WG.wireguard", &vpns));
    assert!(!is_installed("office.conf", &vpns));
    assert!(!is_installed("home-wg.conf", &Vec::new()));
}
