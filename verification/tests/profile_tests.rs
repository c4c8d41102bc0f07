use wg_tui::profiles::{
    default_profile_commands, default_set_message, import_args, import_message, import_refreshes,
    importing_message, is_vpn_conn_type, parse_vpn_list, setting_default_message, toggle_action,
    toggle_args, toggled_message, toggling_message, ImportOutcome, VpnConfig,
};

fn vpn(name: &str, active: bool) -> VpnConfig {
    VpnConfig { name: name.to_string(), conn_type: "wireguard".to_string(), is_active: active, is_default: false }
}

#[test]
fn parse_vpn_list_from_nmcli_output() {
    let active = "home-wg\nWired connection 1\n";
    let priorities = "home-wg:100\nwork:0\nWired connection 1:-999\nwork:150\nbroken:x\n";
    let all = "home-wg:wireguard\nWired connection 1:802-3-ethernet\nwork:vpn\nbare\nguest:wireguard\n";
    let v = parse_vpn_list(active, priorities, all);
    assert_eq!(v.len(), 3);
    assert_eq!(v[0].name, "home-wg");
    assert_eq!(v[0].conn_type, "wireguard");
    assert!(v[0].is_active);
    assert!(v[0].is_default);
    assert_eq!(v[1].name, "work");
    assert_eq!(v[1].conn_type, "vpn");
    assert!(!v[1].is_active);
    assert!(v[1].is_default);
    assert_eq!(v[2].name, "guest");
    assert!(!v[2].is_active);
    assert!(!v[2].is_default);
}

#[test]
fn parse_vpn_list_empty_outputs() {
    assert!(parse_vpn_list("", "", "").is_empty());
    let v = parse_vpn_list("", "", "x:org.freedesktop.NetworkManager.vpnc\r\n");
    assert_eq!(v.len(), 1);
    assert_eq!(v[0].conn_type, "org.freedesktop.NetworkManager.vpnc");
    assert!(!v[0].is_default);
}

#[test]
fn priority_of_later_line_wins() {
    let v = parse_vpn_list("", "a:200\na:99\n", "a:wireguard\n");
    assert!(!v[0].is_default);
    let v = parse_vpn_list("", "a:99\na:100\n", "a:wireguard\n");
    assert!(v[0].is_default);
}

#[test]
fn vpn_conn_types() {
    assert!(is_vpn_conn_type("wireguard"));
    assert!(is_vpn_conn_type("vpn"));
    assert!(!is_vpn_conn_type("802-11-wireless"));
}

#[test]
fn toggle_commands_and_messages() {
    let up = vpn("home", false);
    let down = vpn("home", true);
    assert_eq!(toggle_action(&up), "up");
    assert_eq!(toggle_action(&down), "down");
    assert_eq!(toggle_args(&down), vec!["connection", "down", "home"]);
    assert_eq!(toggling_message(&up), "Toggling home up...");
    assert_eq!(toggled_message(&up), "Successfully toggled home");
}

#[test]
fn default_commands_mark_only_target() {
    let all = vec![vpn("a", false), vpn("b", true), vpn("a", false)];
    let cmds = default_profile_commands(&all[1], &all);
    assert_eq!(cmds.len(), 3);
    assert_eq!(
        cmds[0],
        vec!["connection", "modify", "a", "connection.autoconnect", "no", "connection.autoconnect-priority", "0"]
    );
    assert_eq!(
        cmds[1],
        vec!["connection", "modify", "b", "connection.autoconnect", "yes", "connection.autoconnect-priority", "100"]
    );
    let cmds = default_profile_commands(&all[0], &all);
    assert_eq!(cmds[2][4], "yes");
    assert_eq!(cmds[1][4], "no");
    assert_eq!(setting_default_message(&all[0]), "Setting a as default...");
    assert_eq!(default_set_message(&all[0]), "Default VPN set to a");
}

#[test]
fn import_commands_and_messages() {
    let p = "/home/u/Downloads/wg0.conf";
    assert_eq!(import_args(p), vec!["connection", "import", "type", "wireguard", "file", p]);
    assert_eq!(importing_message(p), "Importing /home/u/Downloads/wg0.conf...");
    assert_eq!(import_message(p, &ImportOutcome::Imported), "Successfully imported /home/u/Downloads/wg0.conf");
    assert_eq!(import_message(p, &ImportOutcome::Failed("bad key".to_string())), "Import failed: bad key");
    assert_eq!(import_message(p, &ImportOutcome::NotRun("not found".to_string())), "Execution error: not found");
    assert!(import_refreshes(&ImportOutcome::Imported));
    assert!(!import_refreshes(&ImportOutcome::Failed(String::new())));
    assert!(!import_refreshes(&ImportOutcome::NotRun(String::new())));
}
