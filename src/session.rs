//! The two user-facing verbs, save and undo, as plans of file operations
//! over one editing session.

use vstd::prelude::*;
use hyprparser::HyprlandConfig;
use crate::apply::{
    apply_entries, apply_list_edits, entries_applied, entries_fit, entry_views, is_list_change,
    keyed_entries, keyed_entries_of, with_list_edits,
};
use crate::changes::{ChangeSet, PendingChange, changes_map, keys_unique, lemma_changes_map_entries};
use crate::parser::{
    config_lines, config_sourced_paths, join_lines, lemma_lines_round_trip, lines_of, render,
    sourced_paths, views,
};
use crate::paths::{backup_path, backup_path_of};
use crate::registry::{OptionDescriptor, catalog, catalog_table, descriptor_views};
use crate::txn::{
    Action, Failure, FileOp, OpView, Outcome, Plan, Step, StepView, abort_index, next_action,
    run_finished, run_outcome,
};

verus! {

/// Copy `p` to its backup; a failure ends the run with `f`.
pub open spec fn backup_step(p: Seq<char>, f: Failure) -> StepView {
    (OpView::Copy(p, backup_path_of(p)), Some(f))
}

/// The steps of a save: when no backup of the main file exists yet, first a
/// backup of the main file and of each sourced file, then the write of the
/// merged configuration.
pub open spec fn save_steps(main: Seq<char>, sourced: Seq<Seq<char>>, backed_up: bool) -> Seq<StepView> {
    let write = seq![(OpView::WriteMerged(main), Some(Failure::Write))];
    if backed_up {
        write
    } else {
        seq![backup_step(main, Failure::Backup)] + sourced.map_values(
            |p: Seq<char>| backup_step(p, Failure::SourcedBackup),
        ) + write
    }
}

/// The steps that restore the first `n` sourced files that have a backup:
/// copy the backup back, then delete it (a failed delete only warns).
pub open spec fn restore_sourced_steps(sourced: Seq<Seq<char>>, has_backup: Seq<bool>, n: int) -> Seq<StepView>
    decreases n,
{
    if n <= 0 {
        Seq::empty()
    } else {
        let p = sourced[n - 1];
        let before = restore_sourced_steps(sourced, has_backup, n - 1);
        if n - 1 < has_backup.len() && has_backup[n - 1] {
            before + seq![
                (OpView::Copy(backup_path_of(p), p), Some(Failure::SourcedRestore)),
                (OpView::Remove(backup_path_of(p)), None),
            ]
        } else {
            before
        }
    }
}

/// The steps of an undo: restore the sourced files, then the main file, read
/// it back, and delete its backup (a failed delete only warns).
pub open spec fn undo_steps(main: Seq<char>, sourced: Seq<Seq<char>>, has_backup: Seq<bool>) -> Seq<StepView> {
    restore_sourced_steps(sourced, has_backup, sourced.len() as int) + seq![
        (OpView::Copy(backup_path_of(main), main), Some(Failure::Restore)),
        (OpView::Reload(main), Some(Failure::Reload)),
        (OpView::Remove(backup_path_of(main)), None),
    ]
}

/// What `save_plan` gives.
pub open spec fn save_plan_view(nothing_pending: bool, main: Seq<char>, sourced: Seq<Seq<char>>, backed_up: bool) -> (Seq<StepView>, Outcome) {
    if nothing_pending {
        (Seq::empty(), Outcome::NothingToSave)
    } else {
        (save_steps(main, sourced, backed_up), Outcome::Saved)
    }
}

/// What `undo_plan` gives.
pub open spec fn undo_plan_view(main: Seq<char>, sourced: Seq<Seq<char>>, has_backup: Seq<bool>, backed_up: bool) -> (Seq<StepView>, Outcome) {
    if !backed_up {
        (Seq::empty(), Outcome::NothingToUndo)
    } else {
        (undo_steps(main, sourced, has_backup), Outcome::Undone)
    }
}

/// The pending edits that remain after a run ended with `o`: none after a
/// save or an undo went through, all of them otherwise.
pub open spec fn settled(m: Map<(Seq<char>, Seq<char>), Seq<char>>, o: Outcome) -> Map<(Seq<char>, Seq<char>), Seq<char>> {
    if o == Outcome::Saved || o == Outcome::Undone {
        Map::empty()
    } else {
        m
    }
}

fn copy_step(from: String, to: String, fatal: Option<Failure>) -> (r: Step)
    ensures
        r@ == (OpView::Copy(from@, to@), fatal),
{
    Step { op: FileOp::Copy { from, to }, fatal }
}

/// The plan of a save of `main`: nothing when `nothing_pending`; otherwise
/// the steps of `save_steps`.
pub fn save_plan(main: &str, sourced: &Vec<String>, backed_up: bool, nothing_pending: bool) -> (r: Plan)
    ensures
        r@ == save_plan_view(nothing_pending, main@, views(sourced@), backed_up),
{
    let mut steps: Vec<Step> = Vec::new();
    if nothing_pending {
        assert(steps@.map_values(|st: Step| st@) =~= Seq::<StepView>::empty());
        return Plan { steps, success: Outcome::NothingToSave };
    }
    let ghost target = save_steps(main@, views(sourced@), backed_up);
    if !backed_up {
        steps.push(copy_step(String::from_str(main), backup_path(main), Some(Failure::Backup)));
        let mut i: usize = 0;
        while i < sourced.len()
            invariant
                0 <= i <= sourced@.len(),
                steps@.map_values(|st: Step| st@) == seq![backup_step(main@, Failure::Backup)]
                    + views(sourced@).subrange(0, i as int).map_values(
                    |p: Seq<char>| backup_step(p, Failure::SourcedBackup),
                ),
            decreases sourced@.len() - i,
        {
            let p = &sourced[i];
            let ghost before = steps@;
            steps.push(
                copy_step(p.clone(), backup_path(p.as_str()), Some(Failure::SourcedBackup)),
            );
            proof {
                let f = |p: Seq<char>| backup_step(p, Failure::SourcedBackup);
                assert(views(sourced@).subrange(0, i + 1) =~= views(sourced@).subrange(
                    0,
                    i as int,
                ).push(sourced@[i as int]@));
                assert(steps@ =~= before.push(steps@.last()));
                assert(steps@.map_values(|st: Step| st@) =~= before.map_values(|st: Step| st@).push(
                    steps@.last()@,
                ));
                assert(views(sourced@).subrange(0, i + 1).map_values(f) =~= views(
                    sourced@,
                ).subrange(0, i as int).map_values(f).push(f(sourced@[i as int]@)));
            }
            i = i + 1;
        }
        assert(views(sourced@).subrange(0, sourced@.len() as int) =~= views(sourced@));
    }
    let ghost before = steps@;
    steps.push(Step { op: FileOp::WriteMerged { path: String::from_str(main) }, fatal: Some(Failure::Write) });
    proof {
        assert(steps@.map_values(|st: Step| st@) =~= before.map_values(|st: Step| st@).push(
            steps@.last()@,
        ));
        assert(steps@.map_values(|st: Step| st@) =~= target);
    }
    Plan { steps, success: Outcome::Saved }
}

/// The plan of an undo of `main`: nothing when `main` has no backup;
/// otherwise the steps of `undo_steps`, where `has_backup[i]` tells whether
/// `sourced[i]` has a backup (a missing entry counts as no backup).
pub fn undo_plan(main: &str, sourced: &Vec<String>, has_backup: &Vec<bool>, backed_up: bool) -> (r: Plan)
    ensures
        r@ == undo_plan_view(main@, views(sourced@), has_backup@, backed_up),
{
    let mut steps: Vec<Step> = Vec::new();
    if !backed_up {
        assert(steps@.map_values(|st: Step| st@) =~= Seq::<StepView>::empty());
        return Plan { steps, success: Outcome::NothingToUndo };
    }
    let mut i: usize = 0;
    while i < sourced.len()
        invariant
            0 <= i <= sourced@.len(),
            steps@.map_values(|st: Step| st@) == restore_sourced_steps(
                views(sourced@),
                has_backup@,
                i as int,
            ),
        decreases sourced@.len() - i,
    {
        if i < has_backup.len() && has_backup[i] {
            let p = &sourced[i];
            let bak = backup_path(p.as_str());
            let ghost before = steps@;
            steps.push(copy_step(bak.clone(), p.clone(), Some(Failure::SourcedRestore)));
            steps.push(Step { op: FileOp::Remove { path: bak }, fatal: None });
            proof {
                assert(views(sourced@)[i as int] == sourced@[i as int]@);
                assert(steps@ =~= before.push(steps@[before.len() as int]).push(steps@.last()));
                assert(steps@.map_values(|st: Step| st@) =~= before.map_values(|st: Step| st@)
                    + seq![steps@[before.len() as int]@, steps@.last()@]);
            }
        }
        i = i + 1;
    }
    let bak = backup_path(main);
    let ghost before = steps@;
    steps.push(copy_step(bak.clone(), String::from_str(main), Some(Failure::Restore)));
    steps.push(Step { op: FileOp::Reload { path: String::from_str(main) }, fatal: Some(Failure::Reload) });
    steps.push(Step { op: FileOp::Remove { path: bak }, fatal: None });
    proof {
        let n = before.len() as int;
        assert(views(sourced@).len() == sourced@.len());
        assert(steps@ =~= before + seq![steps@[n], steps@[n + 1], steps@[n + 2]]);
        assert(steps@.map_values(|st: Step| st@) =~= before.map_values(|st: Step| st@)
            + seq![steps@[n]@, steps@[n + 1]@, steps@[n + 2]@]);
    }
    Plan { steps, success: Outcome::Undone }
}

/// Whether `f` is the failure of a backup copy.
pub open spec fn is_backup_failure(f: Failure) -> bool {
    f == Failure::Backup || f == Failure::SourcedBackup
}

/// The deletions that undo the backup copies among the first `n` steps that
/// went through, in order; a failed delete only warns.
pub open spec fn rollback_steps(steps: Seq<StepView>, results: Seq<bool>, n: int) -> Seq<StepView>
    decreases n,
{
    if n <= 0 {
        Seq::empty()
    } else {
        let before = rollback_steps(steps, results, n - 1);
        let st = steps[n - 1];
        if n - 1 < results.len() && results[n - 1] && st.0 is Copy && st.1 is Some
            && is_backup_failure(st.1->Some_0) {
            before.push((OpView::Remove(st.0->Copy_1), None))
        } else {
            before
        }
    }
}

/// What `rollback_plan` gives for a stopped run: when it stopped on a failed
/// backup, the deletion of every backup that the run did make, ending with
/// the same failure; otherwise nothing more to do.
pub open spec fn rollback_view(steps: Seq<StepView>, success: Outcome, results: Seq<bool>) -> (Seq<StepView>, Outcome) {
    let o = run_outcome(steps, success, results);
    if o is Failed && is_backup_failure(o->Failed_0) {
        (rollback_steps(steps, results, results.len() as int), o)
    } else {
        (Seq::empty(), o)
    }
}

/// The plan that follows a stopped run of `plan`: a backup set is made whole
/// or not at all, so when a backup copy failed, the backups already made by
/// this run are deleted again.
pub fn rollback_plan(plan: &Plan, results: &Vec<bool>) -> (r: Plan)
    requires
        results@.len() <= plan.steps@.len(),
    ensures
        r@ == rollback_view(plan@.0, plan@.1, results@),
{
    let outcome = match next_action(plan, results) {
        Action::Finish { outcome, .. } => outcome,
        Action::Perform(_) => plan.success,
    };
    let mut steps: Vec<Step> = Vec::new();
    let backup_failed = match outcome {
        Outcome::Failed(Failure::Backup) => true,
        Outcome::Failed(Failure::SourcedBackup) => true,
        _ => false,
    };
    if !backup_failed {
        assert(steps@.map_values(|st: Step| st@) =~= Seq::<StepView>::empty());
        return Plan { steps, success: outcome };
    }
    let ghost sv = plan@.0;
    let mut i: usize = 0;
    while i < results.len()
        invariant
            0 <= i <= results@.len(),
            results@.len() <= plan.steps@.len(),
            sv == plan@.0,
            steps@.map_values(|st: Step| st@) == rollback_steps(sv, results@, i as int),
        decreases results@.len() - i,
    {
        let st = &plan.steps[i];
        assert(sv[i as int] == st@);
        if results[i] {
            let undo = match (&st.op, st.fatal) {
                (FileOp::Copy { to, .. }, Some(Failure::Backup)) => Some(to.clone()),
                (FileOp::Copy { to, .. }, Some(Failure::SourcedBackup)) => Some(to.clone()),
                _ => None,
            };
            match undo {
                Some(p) => {
                    let ghost before = steps@;
                    steps.push(Step { op: FileOp::Remove { path: p }, fatal: None });
                    assert(steps@.map_values(|st: Step| st@) =~= before.map_values(|st: Step| st@).push(steps@.last()@));
                },
                None => {},
            }
        }
        i = i + 1;
    }
    Plan { steps, success: outcome }
}

/// Whether the keyed edits of `changes` can all be set in `c` within bounds.
pub open spec fn merge_fits(c: HyprlandConfig, changes: Seq<PendingChange>, catalog: Seq<OptionDescriptor>) -> bool {
    let es = keyed_entries_of(changes, catalog, changes.len() as int);
    entries_fit(c, es, es.len() as int)
}

pub open spec fn has_list_change(changes: Seq<PendingChange>) -> bool {
    exists|i: int| 0 <= i < changes.len() && is_list_change(changes[i])
}

/// The main file's lines after merging `changes` into `c`: each keyed edit
/// set in order by the parser, then each list-style edit.
pub open spec fn merged_lines(c: HyprlandConfig, changes: Seq<PendingChange>, catalog: Seq<OptionDescriptor>) -> Seq<Seq<char>> {
    let es = keyed_entries_of(changes, catalog, changes.len() as int);
    let mid = entries_applied(c, es, es.len() as int);
    if has_list_change(changes) {
        with_list_edits(config_lines(mid), changes, changes.len() as int)
    } else {
        config_lines(mid)
    }
}

/// One editing session of the configuration file at a fixed path: the
/// pending edits and the catalog of known options.
pub struct Session {
    changes: ChangeSet,
    main_path: String,
    catalog: Vec<OptionDescriptor>,
}

impl Session {
    pub closed spec fn wf(&self) -> bool {
        self.changes.wf()
    }

    /// The pending edits.
    pub closed spec fn pending(&self) -> Map<(Seq<char>, Seq<char>), Seq<char>> {
        self.changes@
    }

    /// The path of the main configuration file.
    pub closed spec fn path(&self) -> Seq<char> {
        self.main_path@
    }

    /// A session on the file at `main_path`, with nothing pending.
    pub fn new(main_path: &str) -> (r: Session)
        ensures
            r.wf(),
            r.pending() == Map::<(Seq<char>, Seq<char>), Seq<char>>::empty(),
            r.path() == main_path@,
            descriptor_views(r.catalog()) == catalog_table(),
    {
        Session { changes: ChangeSet::new(), main_path: String::from_str(main_path), catalog: catalog() }
    }

    /// The path of the main configuration file.
    pub fn main_path(&self) -> (r: String)
        ensures
            r@ == self.path(),
    {
        self.main_path.clone()
    }

    /// The pending edits.
    pub fn changes(&self) -> (r: &ChangeSet)
        requires
            self.wf(),
        ensures
            r.wf(),
            r@ == self.pending(),
    {
        &self.changes
    }

    /// Records an edit made in the settings pages; a later edit of the same
    /// key replaces it.
    pub fn record(&mut self, category: &str, key: &str, value: &str)
        requires
            old(self).wf(),
        ensures
            final(self).wf(),
            final(self).path() == old(self).path(),
            final(self).pending() == old(self).pending().insert((category@, key@), value@),
    {
        self.changes.record(category, key, value);
    }

    /// The plan of a save, given the freshly parsed main file and whether its
    /// backup exists.
    pub fn plan_save(&self, config: &HyprlandConfig, backed_up: bool) -> (r: Plan)
        requires
            self.wf(),
        ensures
            r@ == save_plan_view(
                self.pending().dom().len() == 0,
                self.path(),
                config_sourced_paths(*config),
                backed_up,
            ),
    {
        let sourced = sourced_paths(config);
        save_plan(self.main_path.as_str(), &sourced, backed_up, self.changes.is_empty())
    }

    /// The plan of an undo, given the parsed main file, whether each of its
    /// sourced files has a backup, and whether the main file has one.
    pub fn plan_undo(&self, config: &HyprlandConfig, has_backup: &Vec<bool>, backed_up: bool) -> (r: Plan)
        ensures
            r@ == undo_plan_view(self.path(), config_sourced_paths(*config), has_backup@, backed_up),
    {
        let sourced = sourced_paths(config);
        undo_plan(self.main_path.as_str(), &sourced, has_backup, backed_up)
    }

    /// The pending edits, in the order in which they are merged.
    pub closed spec fn pending_seq(&self) -> Seq<PendingChange> {
        self.changes.entries_seq()
    }

    /// The catalog of known options that the session formats values by.
    pub closed spec fn catalog(&self) -> Seq<OptionDescriptor> {
        self.catalog@
    }

    /// The pending edits in merge order stand for the pending edits.
    pub proof fn lemma_pending_seq(&self)
        requires
            self.wf(),
        ensures
            keys_unique(self.pending_seq()),
            changes_map(self.pending_seq()) == self.pending(),
    {
        self.changes.lemma_entries();
    }

    /// Merges the pending edits into the freshly parsed `config`, keyed edits
    /// first and list-style edits after them, and gives the text to write.
    /// Gives `None`, and nothing to write, when a keyed edit would meet
    /// section bounds that lie outside their file. With nothing pending,
    /// `config` stays as parsed.
    pub fn merged_text(&self, config: &mut HyprlandConfig) -> (r: Option<String>)
        requires
            self.wf(),
        ensures
            (r is Some) == merge_fits(*old(config), self.pending_seq(), self.catalog()),
            r matches Some(t) ==> t@ == join_lines(
                merged_lines(*old(config), self.pending_seq(), self.catalog()),
            ),
            config_sourced_paths(*final(config)) == config_sourced_paths(*old(config)),
            self.pending().dom().len() == 0 ==> *final(config) == *old(config),
            self.pending().dom().len() == 0 ==> (r matches Some(t) && t@ == join_lines(
                config_lines(*old(config)),
            )),
    {
        let snapshot = self.changes.snapshot();
        proof {
            lemma_changes_map_entries(snapshot@);
            self.changes.lemma_entries();
        }
        let entries = keyed_entries(&snapshot, &self.catalog);
        proof {
            if snapshot@.len() == 0 {
                assert(entry_views(entries@).len() == 0);
            }
        }
        let ghost before = *config;
        if !apply_entries(config, &entries) {
            return None;
        }
        let ghost mid = *config;
        apply_list_edits(config, &snapshot);
        proof {
            if has_list_change(snapshot@) {
                let i = choose|i: int| 0 <= i < snapshot@.len() && is_list_change(snapshot@[i]);
                assert(is_list_change(snapshot@[i]));
            } else {
                assert forall|i: int| 0 <= i < snapshot@.len() implies !is_list_change(
                    #[trigger] snapshot@[i],
                ) by {
                    if is_list_change(snapshot@[i]) {
                        assert(has_list_change(snapshot@));
                    }
                }
            }
        }
        Some(render(config))
    }

    /// Settles the pending edits once a run has ended with `outcome`: a save
    /// or an undo that went through leaves none; anything else keeps them.
    pub fn finish(&mut self, outcome: Outcome)
        requires
            old(self).wf(),
        ensures
            final(self).wf(),
            final(self).path() == old(self).path(),
            final(self).pending() == settled(old(self).pending(), outcome),
    {
        if outcome == Outcome::Saved || outcome == Outcome::Undone {
            self.changes.clear();
        }
    }
}

/// The copies among `steps`, as `(from, to)`, in order.
pub open spec fn copies(steps: Seq<StepView>) -> Seq<(Seq<char>, Seq<char>)>
    decreases steps.len(),
{
    if steps.len() == 0 {
        Seq::empty()
    } else {
        match steps.last().0 {
            OpView::Copy(from, to) => copies(steps.drop_last()).push((from, to)),
            _ => copies(steps.drop_last()),
        }
    }
}

proof fn lemma_copies_concat(a: Seq<StepView>, b: Seq<StepView>)
    ensures
        copies(a + b) == copies(a) + copies(b),
    decreases b.len(),
{
    if b.len() == 0 {
        assert(a + b =~= a);
        assert(copies(b) =~= Seq::<(Seq<char>, Seq<char>)>::empty());
        assert(copies(a) + copies(b) =~= copies(a));
    } else {
        lemma_copies_concat(a, b.drop_last());
        assert((a + b).drop_last() =~= a + b.drop_last());
        assert((a + b).last() == b.last());
        match b.last().0 {
            OpView::Copy(from, to) => {
                assert(copies(a) + copies(b) =~= (copies(a) + copies(b.drop_last())).push((from, to)));
            },
            _ => {},
        }
    }
}

proof fn lemma_copies_of_backups(sourced: Seq<Seq<char>>)
    ensures
        copies(sourced.map_values(|p: Seq<char>| backup_step(p, Failure::SourcedBackup)))
            == sourced.map_values(|p: Seq<char>| (p, backup_path_of(p))),
    decreases sourced.len(),
{
    let f = |p: Seq<char>| backup_step(p, Failure::SourcedBackup);
    let g = |p: Seq<char>| (p, backup_path_of(p));
    if sourced.len() > 0 {
        lemma_copies_of_backups(sourced.drop_last());
        assert(sourced.map_values(f).drop_last() =~= sourced.drop_last().map_values(f));
        assert(sourced.map_values(g) =~= sourced.drop_last().map_values(g).push(g(sourced.last())));
    } else {
        assert(sourced.map_values(f) =~= Seq::<StepView>::empty());
        assert(sourced.map_values(g) =~= Seq::<(Seq<char>, Seq<char>)>::empty());
    }
}

/// The first save after a clean state copies the main file and each sourced
/// file to its backup, once each; a save while the backup exists copies
/// nothing.
pub proof fn lemma_backups_once(main: Seq<char>, sourced: Seq<Seq<char>>)
    ensures
        copies(save_steps(main, sourced, false)) == seq![(main, backup_path_of(main))]
            + sourced.map_values(|p: Seq<char>| (p, backup_path_of(p))),
        copies(save_steps(main, sourced, true)).len() == 0,
{
    let write = seq![(OpView::WriteMerged(main), Some(Failure::Write))];
    let first = seq![backup_step(main, Failure::Backup)];
    let middle = sourced.map_values(|p: Seq<char>| backup_step(p, Failure::SourcedBackup));
    lemma_copies_concat(first + middle, write);
    lemma_copies_concat(first, middle);
    lemma_copies_of_backups(sourced);
    assert(copies(write) =~= Seq::<(Seq<char>, Seq<char>)>::empty()) by {
        assert(write.drop_last().len() == 0);
        assert(copies(write.drop_last()) == Seq::<(Seq<char>, Seq<char>)>::empty());
        assert(write.last().0 == OpView::WriteMerged(main));
    }
    assert(copies(first) =~= seq![(main, backup_path_of(main))]) by {
        assert(first.drop_last().len() == 0);
        assert(copies(first.drop_last()) == Seq::<(Seq<char>, Seq<char>)>::empty());
        assert(first.last().0 == OpView::Copy(main, backup_path_of(main)));
    }
    assert(save_steps(main, sourced, false) == first + middle + write);
    assert(copies(save_steps(main, sourced, false)) =~= seq![(main, backup_path_of(main))]
        + sourced.map_values(|p: Seq<char>| (p, backup_path_of(p))));
}

/// A save with nothing pending performs no operation: its run stops before
/// any step, with nothing to save, and the pending edits stay as they were.
pub proof fn lemma_empty_save_is_noop(
    main: Seq<char>,
    sourced: Seq<Seq<char>>,
    backed_up: bool,
    pending: Map<(Seq<char>, Seq<char>), Seq<char>>,
)
    ensures
        save_plan_view(true, main, sourced, backed_up).0.len() == 0,
        run_finished(save_plan_view(true, main, sourced, backed_up).0, Seq::empty()),
        run_outcome(
            save_plan_view(true, main, sourced, backed_up).0,
            save_plan_view(true, main, sourced, backed_up).1,
            Seq::empty(),
        ) == Outcome::NothingToSave,
        settled(pending, Outcome::NothingToSave) == pending,
{
}

/// An undo without a backup of the main file performs no operation: its run
/// stops before any step, with nothing to undo.
pub proof fn lemma_undo_without_backup_is_noop(
    main: Seq<char>,
    sourced: Seq<Seq<char>>,
    has_backup: Seq<bool>,
    pending: Map<(Seq<char>, Seq<char>), Seq<char>>,
)
    ensures
        undo_plan_view(main, sourced, has_backup, false).0.len() == 0,
        run_finished(undo_plan_view(main, sourced, has_backup, false).0, Seq::empty()),
        run_outcome(
            undo_plan_view(main, sourced, has_backup, false).0,
            undo_plan_view(main, sourced, has_backup, false).1,
            Seq::empty(),
        ) == Outcome::NothingToUndo,
        settled(pending, Outcome::NothingToUndo) == pending,
{
}

proof fn lemma_all_ok_no_abort(steps: Seq<StepView>, results: Seq<bool>, n: int)
    requires
        0 <= n <= results.len(),
        forall|i: int| 0 <= i < n ==> #[trigger] results[i],
    ensures
        abort_index(steps, results, n) is None,
    decreases n,
{
    if n > 0 {
        lemma_all_ok_no_abort(steps, results, n - 1);
    }
}

/// After a save whose steps all went through, nothing is pending; after a
/// save whose final write failed, once its backups were made, the pending
/// edits are exactly those of before.
pub proof fn lemma_save_settles(
    pending: Map<(Seq<char>, Seq<char>), Seq<char>>,
    main: Seq<char>,
    sourced: Seq<Seq<char>>,
    backed_up: bool,
    results: Seq<bool>,
)
    requires
        pending.dom().len() > 0,
        results.len() == save_steps(main, sourced, backed_up).len(),
    ensures
        ({
            let plan = save_plan_view(false, main, sourced, backed_up);
            let o = run_outcome(plan.0, plan.1, results);
            &&& run_finished(plan.0, results)
            &&& (forall|i: int| 0 <= i < results.len() ==> #[trigger] results[i]) ==> o
                == Outcome::Saved && settled(pending, o) == Map::<
                (Seq<char>, Seq<char>),
                Seq<char>,
            >::empty()
            &&& (!results.last() && forall|i: int|
                0 <= i < results.len() - 1 ==> #[trigger] results[i]) ==> o == Outcome::Failed(
                Failure::Write,
            ) && settled(pending, o) == pending
        }),
{
    let steps = save_steps(main, sourced, backed_up);
    let n = results.len() as int;
    if forall|i: int| 0 <= i < results.len() ==> #[trigger] results[i] {
        lemma_all_ok_no_abort(steps, results, n);
    }
    if !results.last() && forall|i: int| 0 <= i < results.len() - 1 ==> #[trigger] results[i] {
        lemma_all_ok_no_abort(steps, results, n - 1);
        assert(steps.last() == (OpView::WriteMerged(main), Some(Failure::Write)));
        assert(abort_index(steps, results, n) == Some(n - 1));
    }
}

/// With nothing pending, the text that a save writes for a configuration
/// parsed from `t` is `t` itself, whenever `t` has no carriage return and no
/// final line break (the parser's own canonical form).
pub proof fn lemma_untouched_round_trip(config: HyprlandConfig, t: Seq<char>)
    requires
        config_lines(config) == lines_of(t),
        forall|j: int| 0 <= j < t.len() ==> t[j] != '\r',
        t.len() == 0 || t.last() != '\n',
    ensures
        join_lines(config_lines(config)) == t,
{
    lemma_lines_round_trip(t);
}

/// The deletions of the backups of `files`.
pub open spec fn removals(files: Seq<Seq<char>>) -> Seq<StepView> {
    files.map_values(|p: Seq<char>| (OpView::Remove(backup_path_of(p)), None::<Failure>))
}

proof fn lemma_save_step_at(main: Seq<char>, sourced: Seq<Seq<char>>, j: int)
    requires
        0 <= j <= sourced.len(),
    ensures
        save_steps(main, sourced, false)[j] == backup_step(
            (seq![main] + sourced)[j],
            if j == 0 {
                Failure::Backup
            } else {
                Failure::SourcedBackup
            },
        ),
{
    let first = seq![backup_step(main, Failure::Backup)];
    let middle = sourced.map_values(|p: Seq<char>| backup_step(p, Failure::SourcedBackup));
    let write = seq![(OpView::WriteMerged(main), Some(Failure::Write))];
    assert(save_steps(main, sourced, false) == first + middle + write);
    if j > 0 {
        assert((first + middle + write)[j] == middle[j - 1]);
    }
}

proof fn lemma_rollback_prefix(main: Seq<char>, sourced: Seq<Seq<char>>, results: Seq<bool>, n: int)
    requires
        0 <= n <= sourced.len() + 1,
        n <= results.len(),
        forall|j: int| 0 <= j < n ==> #[trigger] results[j],
    ensures
        rollback_steps(save_steps(main, sourced, false), results, n) == removals(
            (seq![main] + sourced).subrange(0, n),
        ),
    decreases n,
{
    let files = seq![main] + sourced;
    if n == 0 {
        assert(removals(files.subrange(0, 0)) =~= Seq::<StepView>::empty());
    } else {
        lemma_rollback_prefix(main, sourced, results, n - 1);
        lemma_save_step_at(main, sourced, n - 1);
        assert(results[n - 1]);
        assert(removals(files.subrange(0, n)) =~= removals(files.subrange(0, n - 1)).push(
            (OpView::Remove(backup_path_of(files[n - 1])), None::<Failure>),
        ));
    }
}

/// When the `a`-th backup copy of a first save fails after the ones before
/// it went through, the save stops with a backup failure and its rollback
/// deletes exactly the backups that it made: those of the main file and of
/// the sourced files before the failing one.
pub proof fn lemma_failed_backup_rolls_back(main: Seq<char>, sourced: Seq<Seq<char>>, a: int)
    requires
        0 <= a <= sourced.len(),
    ensures
        ({
            let steps = save_steps(main, sourced, false);
            let results = Seq::new((a + 1) as nat, |i: int| i < a);
            &&& run_finished(steps, results)
            &&& run_outcome(steps, Outcome::Saved, results) == Outcome::Failed(
                if a == 0 {
                    Failure::Backup
                } else {
                    Failure::SourcedBackup
                },
            )
            &&& rollback_view(steps, Outcome::Saved, results).0 == removals(
                (seq![main] + sourced).subrange(0, a),
            )
        }),
{
    let steps = save_steps(main, sourced, false);
    let results = Seq::new((a + 1) as nat, |i: int| i < a);
    lemma_all_ok_no_abort(steps, results, a);
    lemma_save_step_at(main, sourced, a);
    assert(abort_index(steps, results, a + 1) == Some(a));
    lemma_rollback_prefix(main, sourced, results, a);
    assert(!results[a]);
    assert(rollback_steps(steps, results, a + 1) == rollback_steps(steps, results, a));
}

} // verus!
