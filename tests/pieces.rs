use hyprgui::apply::{entry_for, normalize_color};
use hyprgui::changes::ChangeSet;
use hyprgui::monitors::{
    monitor_lines, monitors_page, names_from_monitor_lines, parse_monitor_line, parse_workspace_line,
    split_fields, workspace_lines,
};
use hyprgui::parser::parse_config;
use hyprgui::paths::backup_path;
use hyprgui::registry::{catalog, describe, kind_of, page_options, search, OptionKind};
use hyprgui::text::{contains_str, find_char, same_text, starts_with};

#[test]
fn last_record_wins() {
    let mut c = ChangeSet::new();
    for v in ["1", "2", "3", "4"] {
        c.record("general", "gaps_out", v);
    }
    c.record("general", "gaps_in", "5");
    assert_eq!(c.len(), 2);
    assert_eq!(c.get("general", "gaps_out").unwrap(), "4");
    assert_eq!(c.get("general", "gaps_in").unwrap(), "5");
    let snap = c.snapshot();
    assert_eq!(snap.len(), 2);
    assert_eq!(snap.iter().filter(|p| p.key == "gaps_out").count(), 1);
}

#[test]
fn concurrent_edit_keeps_one_value() {
    let mut c = ChangeSet::new();
    c.record("decoration", "rounding", "5");
    c.record("decoration", "rounding", "8");
    let snap = c.snapshot();
    assert_eq!(snap.len(), 1);
    assert_eq!(snap[0].category, "decoration");
    assert_eq!(snap[0].key, "rounding");
    assert_eq!(snap[0].value, "8");
}

#[test]
fn same_key_in_other_category_is_separate() {
    let mut c = ChangeSet::new();
    c.record("general", "enabled", "true");
    c.record("decoration", "enabled", "false");
    assert_eq!(c.len(), 2);
    assert_eq!(c.get("general", "enabled").unwrap(), "true");
    assert!(c.get("misc", "enabled").is_none());
}

#[test]
fn clear_empties_the_change_set() {
    let mut c = ChangeSet::new();
    assert!(c.is_empty());
    c.record("general", "gaps_in", "5");
    assert!(!c.is_empty());
    c.clear();
    assert!(c.is_empty());
    assert_eq!(c.snapshot().len(), 0);
}

#[test]
fn backup_path_appends_suffix() {
    assert_eq!(backup_path("/home/u/.config/hypr/hyprland.conf"), "/home/u/.config/hypr/hyprland.conf-bak");
    assert_eq!(backup_path("extra.conf"), "extra.conf-bak");
}

#[test]
fn entries_find_their_sections() {
    let (s, e) = entry_for("general", "gaps_in", "10", OptionKind::Int);
    assert_eq!((s.as_str(), e.as_str()), ("general", "gaps_in = 10"));
    let (s, e) = entry_for("decoration", "blur:size", "8", OptionKind::Int);
    assert_eq!((s.as_str(), e.as_str()), ("decoration.blur", "size = 8"));
    let (s, e) = entry_for("layouts", "dwindle:pseudotile", "true", OptionKind::Bool);
    assert_eq!((s.as_str(), e.as_str()), ("dwindle", "pseudotile = true"));
    let (s, e) = entry_for("general", "col.active_border", "#11223344", OptionKind::Color);
    assert_eq!((s.as_str(), e.as_str()), ("general", "col.active_border = rgba(11223344)"));
    let (_, e) = entry_for("general", "col.active_border", "#11223344", OptionKind::Text);
    assert_eq!(e, "col.active_border = #11223344");
}

#[test]
fn colors_become_rgba() {
    assert_eq!(normalize_color("#1e4632"), "rgba(1e4632ff)");
    assert_eq!(normalize_color("#1E4632AA"), "rgba(1E4632AA)");
    assert_eq!(normalize_color("0xFF1E4632"), "rgba(1E4632FF)");
    assert_eq!(normalize_color("rgb(1E4632)"), "rgba(1E4632ff)");
    assert_eq!(normalize_color("rgba(1E4632FF)"), "rgba(1E4632FF)");
    assert_eq!(normalize_color("#12345"), "#12345");
    assert_eq!(normalize_color("#12345g"), "#12345g");
    assert_eq!(normalize_color(""), "");
}

#[test]
fn registry_knows_kinds() {
    let cat = catalog();
    assert_eq!(kind_of(&cat, "general", "col.active_border"), OptionKind::Color);
    assert_eq!(kind_of(&cat, "decoration", "blur:size"), OptionKind::Int);
    assert_eq!(kind_of(&cat, "decoration", "active_opacity"), OptionKind::Float);
    assert_eq!(kind_of(&cat, "general", "layout"), OptionKind::Choice);
    assert_eq!(kind_of(&cat, "general", "no_such_key"), OptionKind::Text);
    let i = describe(&cat, "general", "layout").unwrap();
    assert_eq!(cat[i].choices, vec!["dwindle", "master"]);
    assert!(describe(&cat, "nowhere", "layout").is_none());
}

#[test]
fn monitor_lines_are_read() {
    let r = parse_monitor_line("monitor=DP-1, 1920x1080@144, 0x0, 1.25");
    assert_eq!(r.name.as_deref(), Some("DP-1"));
    assert_eq!(r.mode, "1920x1080@144");
    assert_eq!(r.position, "0x0");
    assert_eq!(r.scale, "1.25");
    let r = parse_monitor_line("monitor=HDMI-A-1");
    assert_eq!(r.name.as_deref(), Some("HDMI-A-1"));
    assert_eq!(r.mode, "");
    let r = parse_monitor_line("nothing here");
    assert!(r.name.is_none());
    assert_eq!(r.scale, "");
}

#[test]
fn workspace_lines_are_read() {
    let r = parse_workspace_line("workspace=3, monitor:DP-1, default:true");
    assert_eq!(r.number, "3");
    assert_eq!(r.monitor.as_deref(), Some("DP-1"));
    assert!(r.is_default);
    let r = parse_workspace_line("workspace=special,default:false");
    assert_eq!(r.number, "1");
    assert!(r.monitor.is_none());
    assert!(!r.is_default);
    let r = parse_workspace_line("workspace");
    assert_eq!(r.number, "1");
}

#[test]
fn monitor_names_come_from_lines_once() {
    let ls = vec![
        "monitor=DP-1,preferred,auto,1".to_string(),
        "monitor= DP-1 ,1920x1080,0x0,1".to_string(),
        "monitor=,preferred,auto,1".to_string(),
        "monitor=HDMI-A-1".to_string(),
    ];
    assert_eq!(names_from_monitor_lines(&ls), vec!["DP-1".to_string(), "HDMI-A-1".to_string()]);
}

#[test]
fn list_lines_come_from_main_then_sourced() {
    let mut config = parse_config("monitor=DP-1,preferred,auto,1\n  workspace=1,monitor:DP-1\ngeneral {\n}");
    config.add_sourced(vec!["monitor=HDMI-A-1,preferred,auto,1".to_string(), "workspace=2".to_string()]);
    assert_eq!(
        monitor_lines(&config),
        vec!["monitor=DP-1,preferred,auto,1".to_string(), "monitor=HDMI-A-1,preferred,auto,1".to_string()]
    );
    assert_eq!(workspace_lines(&config), vec!["workspace=1,monitor:DP-1".to_string(), "workspace=2".to_string()]);
}

#[test]
fn text_helpers() {
    assert_eq!(split_fields("a,,b", 0), vec!["a".to_string(), "".to_string(), "b".to_string()]);
    assert_eq!(split_fields("", 0), vec!["".to_string()]);
    assert_eq!(find_char("a:b", ':', 0), 1);
    assert_eq!(find_char("ab", ':', 0), 2);
    assert!(same_text("abc", "abc"));
    assert!(!same_text("abc", "abd"));
    assert!(starts_with("monitor=x", "monitor="));
    assert!(!starts_with("mon", "monitor="));
}

#[test]
fn search_matches_labels_ignoring_case() {
    let cat = catalog();
    let hits = search(&cat, "BORDER COLOR");
    assert!(!hits.is_empty());
    for &i in &hits {
        assert!(cat[i].label.to_lowercase().contains("border color"));
    }
    assert!(hits.iter().any(|&i| cat[i].key == "col.active_border"));
    assert_eq!(search(&cat, "").len(), cat.len());
    assert!(search(&cat, "no label has this").is_empty());
}

#[test]
fn substring_search() {
    assert!(contains_str("active border", "border"));
    assert!(contains_str("abc", ""));
    assert!(!contains_str("ab", "abc"));
    assert!(!contains_str("abc", "bd"));
    assert!(contains_str("abc", "abc"));
}

#[test]
fn monitors_page_reads_rows_and_names() {
    let config = parse_config("monitor=DP-1,2560x1440@144,0x0,1\nmonitor=HDMI-A-1,preferred,auto,2\nworkspace=2,monitor:HDMI-A-1");
    let page = monitors_page(&config, &Vec::new());
    assert_eq!(page.names, vec!["DP-1".to_string(), "HDMI-A-1".to_string()]);
    assert_eq!(page.monitors.len(), 2);
    assert_eq!(page.monitors[1].scale, "2");
    assert_eq!(page.workspaces.len(), 1);
    assert_eq!(page.workspaces[0].number, "2");
    let live = vec!["eDP-1".to_string()];
    assert_eq!(monitors_page(&config, &live).names, live);
}

#[test]
fn pages_list_their_options() {
    let cat = catalog();
    assert!(page_options(&cat, "foo").is_empty());
    let general: Vec<&str> = page_options(&cat, "general").iter().map(|&i| cat[i].key).collect();
    for k in ["layout", "gaps_in", "gaps_out", "border_size", "col.active_border"] {
        assert!(general.contains(&k));
    }
    let input: Vec<&str> = page_options(&cat, "input").iter().map(|&i| cat[i].key).collect();
    assert!(input.contains(&"kb_layout"));
    assert_eq!(page_options(&cat, "decoration"), page_options(&catalog(), "decoration"));
}
