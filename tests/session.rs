use std::collections::HashMap;

use hyprgui::parser::{parse_config, sourced_files};
use hyprgui::paths::backup_path;
use hyprgui::session::{rollback_plan, save_plan, undo_plan, Session};
use hyprgui::txn::{next_action, Action, Failure, FileOp, Outcome, Plan};

use hyprparser::HyprlandConfig;

/// A file system held in memory; `broken` paths cannot be written.
struct Disk {
    files: HashMap<String, String>,
    broken: Vec<String>,
    writes: usize,
}

impl Disk {
    fn new() -> Disk {
        Disk { files: HashMap::new(), broken: Vec::new(), writes: 0 }
    }

    fn put(&mut self, path: &str, text: &str) {
        self.files.insert(path.to_string(), text.to_string());
    }

    fn text(&self, path: &str) -> Option<String> {
        self.files.get(path).cloned()
    }

    fn has(&self, path: &str) -> bool {
        self.files.contains_key(path)
    }
}

/// Runs `plan` against `disk` the way the application does, and settles the
/// session with the outcome.
fn run(session: &mut Session, plan: &Plan, config: &mut HyprlandConfig, disk: &mut Disk) -> (Outcome, Vec<usize>) {
    let mut results: Vec<bool> = Vec::new();
    loop {
        match next_action(plan, &results) {
            Action::Perform(op) => {
                let ok = match op {
                    FileOp::Copy { from, to } => {
                        if disk.broken.contains(&to) {
                            false
                        } else if let Some(t) = disk.text(&from) {
                            disk.writes += 1;
                            disk.put(&to, &t);
                            true
                        } else {
                            false
                        }
                    }
                    FileOp::WriteMerged { path } => {
                        if disk.broken.contains(&path) {
                            false
                        } else {
                            match session.merged_text(config) {
                                Some(text) => {
                                    disk.writes += 1;
                                    disk.put(&path, &text);
                                    true
                                }
                                None => false,
                            }
                        }
                    }
                    FileOp::Remove { path } => {
                        if disk.broken.contains(&path) {
                            false
                        } else {
                            disk.writes += 1;
                            disk.files.remove(&path).is_some()
                        }
                    }
                    FileOp::Reload { path } => disk.has(&path),
                };
                results.push(ok);
            }
            Action::Finish { outcome, warnings } => {
                session.finish(outcome);
                let cleanup = rollback_plan(plan, &results);
                if !cleanup.steps.is_empty() {
                    run(session, &cleanup, config, disk);
                }
                return (outcome, warnings);
            }
        }
    }
}

fn save(session: &mut Session, disk: &mut Disk) -> Outcome {
    let main = session.main_path();
    let text = disk.text(&main).unwrap();
    let mut config = parse_config(&text);
    let backed_up = disk.has(&backup_path(&main));
    let plan = session.plan_save(&config, backed_up);
    run(session, &plan, &mut config, disk).0
}

fn save_with_sourced(session: &mut Session, disk: &mut Disk, sourced: &str, lines: &[&str]) -> Outcome {
    let main = session.main_path();
    let text = disk.text(&main).unwrap();
    let mut config = parse_config(&text);
    config.add_sourced(lines.iter().map(|l| l.to_string()).collect());
    config.sourced_paths[0] = sourced.to_string();
    let backed_up = disk.has(&backup_path(&main));
    let plan = session.plan_save(&config, backed_up);
    run(session, &plan, &mut config, disk).0
}

fn undo(session: &mut Session, disk: &mut Disk, sourced: &[&str]) -> Outcome {
    let main = session.main_path();
    let text = disk.text(&main).unwrap();
    let mut config = parse_config(&text);
    for (i, p) in sourced.iter().enumerate() {
        config.add_sourced(Vec::new());
        config.sourced_paths[i] = p.to_string();
    }
    let has_backup: Vec<bool> = sourced_files(&config).iter().map(|p| disk.has(&backup_path(p))).collect();
    let backed_up = disk.has(&backup_path(&main));
    let plan = session.plan_undo(&config, &has_backup, backed_up);
    run(session, &plan, &mut config, disk).0
}

#[test]
fn empty_save_touches_nothing() {
    let mut disk = Disk::new();
    disk.put("/c/hyprland.conf", "general {\n    gaps_in = 5\n}");
    let mut s = Session::new("/c/hyprland.conf");
    assert_eq!(save(&mut s, &mut disk), Outcome::NothingToSave);
    assert_eq!(disk.writes, 0);
    assert!(!disk.has("/c/hyprland.conf-bak"));
    assert_eq!(disk.text("/c/hyprland.conf").unwrap(), "general {\n    gaps_in = 5\n}");
}

#[test]
fn first_save_backs_up_once_and_second_save_does_not() {
    let mut disk = Disk::new();
    disk.put("/c/hyprland.conf", "general {\n    gaps_in = 5\n}");
    let mut s = Session::new("/c/hyprland.conf");
    s.record("general", "gaps_in", "10");
    let config = parse_config("general {\n    gaps_in = 5\n}");
    let first = s.plan_save(&config, false);
    let copies = first.steps.iter().filter(|st| matches!(st.op, FileOp::Copy { .. })).count();
    assert_eq!(copies, 1);
    assert_eq!(save(&mut s, &mut disk), Outcome::Saved);
    assert_eq!(disk.text("/c/hyprland.conf-bak").unwrap(), "general {\n    gaps_in = 5\n}");

    s.record("general", "gaps_in", "12");
    let second = s.plan_save(&config, true);
    let copies = second.steps.iter().filter(|st| matches!(st.op, FileOp::Copy { .. })).count();
    assert_eq!(copies, 0);
    assert_eq!(save(&mut s, &mut disk), Outcome::Saved);
    assert_eq!(disk.text("/c/hyprland.conf-bak").unwrap(), "general {\n    gaps_in = 5\n}");
    assert!(disk.text("/c/hyprland.conf").unwrap().contains("gaps_in = 12"));
}

#[test]
fn save_plan_backs_up_every_sourced_file() {
    let sourced = vec!["/c/a.conf".to_string(), "/c/b.conf".to_string()];
    let plan = save_plan("/c/hyprland.conf", &sourced, false, false);
    let targets: Vec<String> = plan
        .steps
        .iter()
        .filter_map(|st| match &st.op {
            FileOp::Copy { from, to } => Some(format!("{}>{}", from, to)),
            _ => None,
        })
        .collect();
    assert_eq!(
        targets,
        vec![
            "/c/hyprland.conf>/c/hyprland.conf-bak".to_string(),
            "/c/a.conf>/c/a.conf-bak".to_string(),
            "/c/b.conf>/c/b.conf-bak".to_string(),
        ]
    );
    assert_eq!(plan.steps[0].fatal, Some(Failure::Backup));
    assert_eq!(plan.steps[1].fatal, Some(Failure::SourcedBackup));
    assert!(matches!(&plan.steps[3].op, FileOp::WriteMerged { path } if path == "/c/hyprland.conf"));
    assert_eq!(plan.success, Outcome::Saved);
}

#[test]
fn untouched_config_round_trips() {
    let text = "general {\n    gaps_in = 5\n    border_size = 2\n}\n\n# comment\nmonitor=DP-1,1920x1080@60,0x0,1";
    let s = Session::new("/c/hyprland.conf");
    let mut config = parse_config(text);
    assert_eq!(s.merged_text(&mut config).unwrap(), text);
    assert_eq!(parse_config(text).to_string(), text);
}

#[test]
fn save_clears_changes_and_failed_write_keeps_them() {
    let mut disk = Disk::new();
    disk.put("/c/hyprland.conf", "general {\n    gaps_in = 5\n}");
    let mut s = Session::new("/c/hyprland.conf");
    s.record("general", "gaps_in", "10");
    disk.broken.push("/c/hyprland.conf".to_string());
    assert_eq!(save(&mut s, &mut disk), Outcome::Failed(Failure::Write));
    assert_eq!(s.changes().len(), 1);
    assert_eq!(s.changes().get("general", "gaps_in").unwrap(), "10");
    assert!(disk.has("/c/hyprland.conf-bak"));

    disk.broken.clear();
    assert_eq!(save(&mut s, &mut disk), Outcome::Saved);
    assert!(s.changes().is_empty());
}

#[test]
fn failed_backup_aborts_save() {
    let mut disk = Disk::new();
    disk.put("/c/hyprland.conf", "general {\n    gaps_in = 5\n}");
    disk.broken.push("/c/hyprland.conf-bak".to_string());
    let mut s = Session::new("/c/hyprland.conf");
    s.record("general", "gaps_in", "10");
    assert_eq!(save(&mut s, &mut disk), Outcome::Failed(Failure::Backup));
    assert_eq!(disk.text("/c/hyprland.conf").unwrap(), "general {\n    gaps_in = 5\n}");
    assert_eq!(s.changes().len(), 1);
}

#[test]
fn failed_sourced_backup_aborts_save() {
    let mut disk = Disk::new();
    disk.put("/c/hyprland.conf", "general {\n    gaps_in = 5\n}");
    disk.put("/c/extra.conf", "input {\n    kb_layout = us\n}");
    disk.broken.push("/c/extra.conf-bak".to_string());
    let mut s = Session::new("/c/hyprland.conf");
    s.record("general", "gaps_in", "10");
    let out = save_with_sourced(&mut s, &mut disk, "/c/extra.conf", &["input {", "    kb_layout = us", "}"]);
    assert_eq!(out, Outcome::Failed(Failure::SourcedBackup));
    assert_eq!(disk.text("/c/hyprland.conf").unwrap(), "general {\n    gaps_in = 5\n}");
    assert!(!disk.has("/c/hyprland.conf-bak"));
    assert_eq!(s.changes().len(), 1);
}

#[test]
fn undo_without_backup_touches_nothing() {
    let mut disk = Disk::new();
    disk.put("/c/hyprland.conf", "general {\n    gaps_in = 5\n}");
    let mut s = Session::new("/c/hyprland.conf");
    s.record("general", "gaps_in", "10");
    assert_eq!(undo(&mut s, &mut disk, &[]), Outcome::NothingToUndo);
    assert_eq!(disk.writes, 0);
    assert_eq!(disk.text("/c/hyprland.conf").unwrap(), "general {\n    gaps_in = 5\n}");
    assert_eq!(s.changes().len(), 1);
}

#[test]
fn end_to_end_save_and_undo() {
    let mut disk = Disk::new();
    disk.put("/c/hyprland.conf", "general {\n    gaps_in = 5\n}");
    let mut s = Session::new("/c/hyprland.conf");
    s.record("general", "gaps_in", "10");
    assert_eq!(save(&mut s, &mut disk), Outcome::Saved);
    assert!(disk.text("/c/hyprland.conf-bak").unwrap().contains("gaps_in = 5"));
    let saved = disk.text("/c/hyprland.conf").unwrap();
    assert!(saved.contains("gaps_in = 10"));
    assert!(!saved.contains("gaps_in = 5"));

    assert_eq!(undo(&mut s, &mut disk, &[]), Outcome::Undone);
    assert_eq!(disk.text("/c/hyprland.conf").unwrap(), "general {\n    gaps_in = 5\n}");
    assert!(!disk.has("/c/hyprland.conf-bak"));
    assert!(s.changes().is_empty());
}

#[test]
fn end_to_end_with_sourced_file() {
    let mut disk = Disk::new();
    disk.put("/c/hyprland.conf", "source = /c/extra.conf\ngeneral {\n    gaps_in = 5\n}");
    disk.put("/c/extra.conf", "kb_layout = us");
    let mut s = Session::new("/c/hyprland.conf");
    s.record("input", "kb_layout", "de");
    let out = save_with_sourced(&mut s, &mut disk, "/c/extra.conf", &["kb_layout = us"]);
    assert_eq!(out, Outcome::Saved);
    assert_eq!(disk.text("/c/hyprland.conf-bak").unwrap(), "source = /c/extra.conf\ngeneral {\n    gaps_in = 5\n}");
    assert_eq!(disk.text("/c/extra.conf-bak").unwrap(), "kb_layout = us");

    disk.put("/c/extra.conf", "kb_layout = de");
    assert_eq!(undo(&mut s, &mut disk, &["/c/extra.conf"]), Outcome::Undone);
    assert_eq!(disk.text("/c/extra.conf").unwrap(), "kb_layout = us");
    assert_eq!(disk.text("/c/hyprland.conf").unwrap(), "source = /c/extra.conf\ngeneral {\n    gaps_in = 5\n}");
    assert!(!disk.has("/c/extra.conf-bak"));
    assert!(!disk.has("/c/hyprland.conf-bak"));
}

#[test]
fn concurrent_edits_apply_last_value() {
    let mut disk = Disk::new();
    disk.put("/c/hyprland.conf", "decoration {\n    rounding = 2\n}");
    let mut s = Session::new("/c/hyprland.conf");
    s.record("decoration", "rounding", "5");
    s.record("decoration", "rounding", "8");
    assert_eq!(s.changes().len(), 1);
    assert_eq!(save(&mut s, &mut disk), Outcome::Saved);
    let saved = disk.text("/c/hyprland.conf").unwrap();
    assert!(saved.contains("rounding = 8"));
    assert!(!saved.contains("rounding = 5"));
    assert!(!saved.contains("rounding = 2"));
}

#[test]
fn undo_plan_restores_sourced_before_main() {
    let sourced = vec!["/c/a.conf".to_string(), "/c/b.conf".to_string()];
    let plan = undo_plan("/c/hyprland.conf", &sourced, &vec![false, true], true);
    let ops: Vec<String> = plan
        .steps
        .iter()
        .map(|st| match &st.op {
            FileOp::Copy { from, to } => format!("copy {} {}", from, to),
            FileOp::Remove { path } => format!("remove {}", path),
            FileOp::Reload { path } => format!("reload {}", path),
            FileOp::WriteMerged { path } => format!("write {}", path),
        })
        .collect();
    assert_eq!(
        ops,
        vec![
            "copy /c/b.conf-bak /c/b.conf",
            "remove /c/b.conf-bak",
            "copy /c/hyprland.conf-bak /c/hyprland.conf",
            "reload /c/hyprland.conf",
            "remove /c/hyprland.conf-bak",
        ]
    );
    assert_eq!(plan.steps[1].fatal, None);
    assert_eq!(plan.steps[2].fatal, Some(Failure::Restore));
    assert_eq!(plan.success, Outcome::Undone);
}

#[test]
fn failed_backup_deletion_only_warns() {
    let mut disk = Disk::new();
    disk.put("/c/hyprland.conf", "general {\n    gaps_in = 10\n}");
    disk.put("/c/hyprland.conf-bak", "general {\n    gaps_in = 5\n}");
    disk.broken.push("/c/hyprland.conf-bak".to_string());
    let mut s = Session::new("/c/hyprland.conf");
    s.record("general", "gaps_in", "7");
    let text = disk.text("/c/hyprland.conf").unwrap();
    let mut config = parse_config(&text);
    let plan = s.plan_undo(&config, &Vec::new(), true);
    let (outcome, warnings) = run(&mut s, &plan, &mut config, &mut disk);
    assert_eq!(outcome, Outcome::Undone);
    assert_eq!(warnings, vec![2]);
    assert_eq!(disk.text("/c/hyprland.conf").unwrap(), "general {\n    gaps_in = 5\n}");
    assert!(s.changes().is_empty());
}

#[test]
fn failed_restore_keeps_backups() {
    let mut disk = Disk::new();
    disk.put("/c/hyprland.conf", "general {\n    gaps_in = 10\n}");
    disk.put("/c/hyprland.conf-bak", "general {\n    gaps_in = 5\n}");
    disk.broken.push("/c/hyprland.conf".to_string());
    let mut s = Session::new("/c/hyprland.conf");
    s.record("general", "gaps_in", "7");
    assert_eq!(undo(&mut s, &mut disk, &[]), Outcome::Failed(Failure::Restore));
    assert!(disk.has("/c/hyprland.conf-bak"));
    assert_eq!(s.changes().len(), 1);
}

#[test]
fn next_action_walks_the_plan() {
    let sourced: Vec<String> = Vec::new();
    let plan = save_plan("/c/h.conf", &sourced, false, false);
    assert!(matches!(next_action(&plan, &vec![]), Action::Perform(FileOp::Copy { .. })));
    assert!(matches!(next_action(&plan, &vec![true]), Action::Perform(FileOp::WriteMerged { .. })));
    match next_action(&plan, &vec![true, true]) {
        Action::Finish { outcome, warnings } => {
            assert_eq!(outcome, Outcome::Saved);
            assert!(warnings.is_empty());
        }
        _ => panic!("the run should have stopped"),
    }
    match next_action(&plan, &vec![false]) {
        Action::Finish { outcome, .. } => assert_eq!(outcome, Outcome::Failed(Failure::Backup)),
        _ => panic!("the run should have stopped"),
    }
}

#[test]
fn parsed_lines_are_kept() {
    let config = parse_config("a = 1\r\nb = 2\n");
    assert_eq!(config.content.clone(), vec!["a = 1".to_string(), "b = 2".to_string()]);
}

#[test]
fn rollback_deletes_only_backups_made() {
    let sourced = vec!["/c/a.conf".to_string(), "/c/b.conf".to_string()];
    let plan = save_plan("/c/h.conf", &sourced, false, false);
    let cleanup = rollback_plan(&plan, &vec![true, true, false]);
    let removed: Vec<String> = cleanup
        .steps
        .iter()
        .map(|st| match &st.op {
            FileOp::Remove { path } => path.clone(),
            _ => panic!("only deletions undo a backup"),
        })
        .collect();
    assert_eq!(removed, vec!["/c/h.conf-bak".to_string(), "/c/a.conf-bak".to_string()]);
    assert_eq!(cleanup.success, Outcome::Failed(Failure::SourcedBackup));
    let after_write_failure = rollback_plan(&plan, &vec![true, true, true, false]);
    assert!(after_write_failure.steps.is_empty());
    assert_eq!(after_write_failure.success, Outcome::Failed(Failure::Write));
}

#[test]
fn undo_failures_are_named() {
    let sourced = vec!["/c/a.conf".to_string()];
    let plan = undo_plan("/c/h.conf", &sourced, &vec![true], true);
    match next_action(&plan, &vec![false]) {
        Action::Finish { outcome, .. } => assert_eq!(outcome, Outcome::Failed(Failure::SourcedRestore)),
        _ => panic!("the run should have stopped"),
    }
    match next_action(&plan, &vec![true, false, true, false]) {
        Action::Finish { outcome, warnings } => {
            assert_eq!(outcome, Outcome::Failed(Failure::Reload));
            assert_eq!(warnings, vec![1]);
        }
        _ => panic!("the run should have stopped"),
    }
    match next_action(&plan, &vec![true, true, true, true, false]) {
        Action::Finish { outcome, warnings } => {
            assert_eq!(outcome, Outcome::Undone);
            assert_eq!(warnings, vec![4]);
        }
        _ => panic!("the run should have stopped"),
    }
    let none = undo_plan("/c/h.conf", &sourced, &vec![true], false);
    assert!(none.steps.is_empty());
    assert_eq!(none.success, Outcome::NothingToUndo);
}

fn lines(v: &[&str]) -> Vec<String> {
    v.iter().map(|s| s.to_string()).collect()
}

#[test]
fn stale_sourced_bounds_refuse_the_merge() {
    let mut sourced_sections = HashMap::new();
    sourced_sections.insert("general_0".to_string(), (0usize, 2usize));
    sourced_sections.insert("decoration_1".to_string(), (3usize, 5usize));
    let mut config = HyprlandConfig {
        content: lines(&["source = a.conf", "source = b.conf"]),
        sections: HashMap::new(),
        sourced_content: vec![
            lines(&["general {", "    gaps_in = 5", "}"]),
            lines(&["# b", "", "", "decoration {", "    rounding = 2", "}"]),
        ],
        sourced_sections,
        sourced_paths: vec![
            "/nonexistent-hyprgui-dir/a.conf".to_string(),
            "/nonexistent-hyprgui-dir/b.conf".to_string(),
        ],
    };
    let mut s = Session::new("/c/hyprland.conf");
    s.record("general", "foo", "1");
    s.record("decoration", "rounding", "8");
    assert_eq!(s.merged_text(&mut config), None);
}
