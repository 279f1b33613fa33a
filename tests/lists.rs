use hyprgui::apply::{apply_list_edits, keyed_entries, monitor_entry, replace_list_lines, workspace_entry};
use hyprgui::registry::catalog;
use hyprgui::changes::ChangeSet;
use hyprgui::inventory::{build_inventory, distinct_modes, mode_choices, reports_from_json, MonitorReport};
use hyprgui::parser::parse_config;
use hyprgui::session::Session;

fn strings(v: &[&str]) -> Vec<String> {
    v.iter().map(|s| s.to_string()).collect()
}

#[test]
fn list_lines_are_replaced_in_place() {
    let lines = strings(&["# head", "monitor=A,preferred,auto,1", "x = 1", "  monitor=B,preferred,auto,1", "y = 2"]);
    let r = replace_list_lines(&lines, "monitor=", &strings(&["monitor=C,1920x1080,0x0,1"]));
    assert_eq!(r, strings(&["# head", "monitor=C,1920x1080,0x0,1", "x = 1", "y = 2"]));
}

#[test]
fn list_lines_go_last_when_none_exist() {
    let lines = strings(&["a = 1", "b = 2"]);
    let r = replace_list_lines(&lines, "workspace=", &strings(&["workspace=1", "workspace=2"]));
    assert_eq!(r, strings(&["a = 1", "b = 2", "workspace=1", "workspace=2"]));
}

#[test]
fn list_lines_can_all_go() {
    let lines = strings(&["monitor=A", "a = 1", "monitor=B"]);
    let r = replace_list_lines(&lines, "monitor=", &Vec::new());
    assert_eq!(r, strings(&["a = 1"]));
}

#[test]
fn list_edits_rewrite_the_main_file() {
    let mut config = parse_config("monitor=DP-1,preferred,auto,1\ngeneral {\n    gaps_in = 5\n}\nmonitor=DP-2,preferred,auto,1");
    let mut c = ChangeSet::new();
    c.record("monitors", "monitor", "monitor=DP-1,2560x1440@144,0x0,1\nmonitor=HDMI-A-1,preferred,auto,2");
    apply_list_edits(&mut config, &c.snapshot());
    assert_eq!(
        config.content.clone(),
        strings(&[
            "monitor=DP-1,2560x1440@144,0x0,1",
            "monitor=HDMI-A-1,preferred,auto,2",
            "general {",
            "    gaps_in = 5",
            "}",
        ])
    );
}

#[test]
fn keyed_edits_leave_list_lines_alone() {
    let text = "monitor=DP-1,preferred,auto,1\ngeneral {\n    gaps_in = 5\n}";
    let mut config = parse_config(text);
    let mut c = ChangeSet::new();
    c.record("general", "gaps_in", "9");
    apply_list_edits(&mut config, &c.snapshot());
    assert_eq!(config.to_string(), text);
}

#[test]
fn session_saves_list_and_keyed_edits() {
    let s0 = "monitor=DP-1,preferred,auto,1\ngeneral {\n    gaps_in = 5\n}";
    let mut s = Session::new("/c/hyprland.conf");
    s.record("general", "gaps_in", "9");
    s.record("monitors", "workspace", "workspace=1,monitor:DP-1,default:true");
    let mut config = parse_config(s0);
    let text = s.merged_text(&mut config).unwrap();
    assert!(text.contains("gaps_in = 9"));
    assert!(text.contains("monitor=DP-1,preferred,auto,1"));
    assert!(text.ends_with("workspace=1,monitor:DP-1,default:true"));
}

#[test]
fn row_lines_are_written() {
    assert_eq!(monitor_entry("DP-1", "1920x1080@60", "0x0", "1"), "monitor=DP-1,1920x1080@60,0x0,1");
    assert_eq!(workspace_entry("3", Some("DP-1"), true), "workspace=3,monitor:DP-1,default:true");
    assert_eq!(workspace_entry("4", None, false), "workspace=4");
}

#[test]
fn modes_are_trimmed_and_distinct() {
    let raw = strings(&[" 1920x1080@60 ", "", "1920x1080@60", "1280x720@60", "   "]);
    assert_eq!(distinct_modes(&raw), strings(&["1920x1080@60", "1280x720@60"]));
}

#[test]
fn inventory_gathers_names_and_modes() {
    let reports = vec![
        MonitorReport { name: "DP-1".to_string(), modes: strings(&["a", "b"]) },
        MonitorReport { name: "HDMI-A-1".to_string(), modes: strings(&["b", "c"]) },
        MonitorReport { name: "DP-1".to_string(), modes: Vec::new() },
    ];
    let inv = build_inventory(&reports);
    assert_eq!(inv.names, strings(&["DP-1", "HDMI-A-1"]));
    assert_eq!(inv.all_modes, strings(&["preferred", "a", "b", "c"]));
    assert_eq!(inv.modes_by_name.len(), 2);
    assert_eq!(mode_choices(&inv, Some("HDMI-A-1")), strings(&["preferred", "b", "c"]));
    assert_eq!(mode_choices(&inv, Some("eDP-1")), strings(&["preferred", "a", "b", "c"]));
    assert_eq!(mode_choices(&inv, None), strings(&["preferred", "a", "b", "c"]));
}

#[test]
fn empty_inventory_offers_preferred() {
    let inv = build_inventory(&Vec::new());
    assert!(inv.names.is_empty());
    assert_eq!(mode_choices(&inv, Some("DP-1")), strings(&["preferred"]));
}

#[test]
fn reports_are_read_from_tool_output() {
    let json = br#"[{"name":"DP-1","availableModes":["2560x1440@144.00Hz","1920x1080@60.00Hz"]},
        {"name":"HDMI-A-1","modes":"1920x1080@60.00Hz  1280x720@60.00Hz"},
        {"id":3},
        {"name":"eDP-1"}]"#;
    let reports = reports_from_json(json);
    assert_eq!(reports.len(), 3);
    assert_eq!(reports[0].name, "DP-1");
    assert_eq!(reports[0].modes, strings(&["2560x1440@144.00Hz", "1920x1080@60.00Hz"]));
    assert_eq!(reports[1].modes, strings(&["1920x1080@60.00Hz", "1280x720@60.00Hz"]));
    assert!(reports[2].modes.is_empty());
    assert!(reports_from_json(b"not json").is_empty());
    assert!(reports_from_json(b"{\"name\":\"x\"}").is_empty());
}

#[test]
fn keyed_entries_follow_the_catalog() {
    let mut c = ChangeSet::new();
    c.record("general", "col.active_border", "#aabbcc");
    c.record("monitors", "monitor", "monitor=DP-1,preferred,auto,1");
    let entries = keyed_entries(&c.snapshot(), &catalog());
    assert_eq!(entries, vec![("general".to_string(), "col.active_border = rgba(aabbccff)".to_string())]);
}

#[test]
fn present_available_modes_win_even_when_unusable() {
    let json = br#"[{"name":"DP-1","availableModes":null,"modes":"1920x1080"},
        {"name":"DP-2","modes":["a", 3, "b"]},
        {"name":7}]"#;
    let reports = reports_from_json(json);
    assert_eq!(reports.len(), 2);
    assert!(reports[0].modes.is_empty());
    assert_eq!(reports[1].modes, strings(&["a", "b"]));
}
