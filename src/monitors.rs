//! The list-style entries of the monitors page: `monitor=` and `workspace=`
//! lines, gathered from the main file and the sourced files, and read into
//! their fields.

use vstd::prelude::*;
use hyprparser::HyprlandConfig;
use crate::parser::{config_lines, config_sourced_lines, main_lines, sourced_lines, views};
use crate::text::{
    find_char, first_from, has_prefix, lemma_first_from, pieces_from, same_text, slice,
    split_at_char, starts_with, trim, trimmed,
};

verus! {

pub open spec fn monitor_prefix() -> Seq<char> {
    seq!['m', 'o', 'n', 'i', 't', 'o', 'r', '=']
}

pub open spec fn workspace_prefix() -> Seq<char> {
    seq!['w', 'o', 'r', 'k', 's', 'p', 'a', 'c', 'e', '=']
}

/// The trimmed lines among the first `n` of `ls` that begin with `prefix`.
pub open spec fn list_lines(ls: Seq<Seq<char>>, prefix: Seq<char>, n: int) -> Seq<Seq<char>>
    decreases n,
{
    if n <= 0 {
        Seq::empty()
    } else if has_prefix(trimmed(ls[n - 1]), prefix) {
        list_lines(ls, prefix, n - 1).push(trimmed(ls[n - 1]))
    } else {
        list_lines(ls, prefix, n - 1)
    }
}

/// The trimmed lines of all of `ls` that begin with `prefix`.
pub open spec fn all_list_lines(ls: Seq<Seq<char>>, prefix: Seq<char>) -> Seq<Seq<char>> {
    list_lines(ls, prefix, ls.len() as int)
}

/// The matching lines of the first `n` sourced files, file after file.
pub open spec fn sourced_list_lines(files: Seq<Seq<Seq<char>>>, prefix: Seq<char>, n: int) -> Seq<Seq<char>>
    decreases n,
{
    if n <= 0 {
        Seq::empty()
    } else {
        sourced_list_lines(files, prefix, n - 1) + all_list_lines(files[n - 1], prefix)
    }
}

/// The list-style lines of a configuration that begin with `prefix`: those of
/// the main file, then those of each sourced file.
pub open spec fn config_list_lines(c: HyprlandConfig, prefix: Seq<char>) -> Seq<Seq<char>> {
    all_list_lines(config_lines(c), prefix) + sourced_list_lines(
        config_sourced_lines(c),
        prefix,
        config_sourced_lines(c).len() as int,
    )
}

/// Appends to `out` the trimmed lines of `ls` that begin with `prefix`.
fn collect_list_lines(ls: &Vec<String>, prefix: &str, out: &mut Vec<String>)
    ensures
        views(final(out)@) == views(old(out)@) + all_list_lines(views(ls@), prefix@),
{
    let ghost start = views(out@);
    let mut i: usize = 0;
    while i < ls.len()
        invariant
            0 <= i <= ls@.len(),
            views(out@) == start + list_lines(views(ls@), prefix@, i as int),
        decreases ls@.len() - i,
    {
        let t = trim(ls[i].as_str());
        let ghost before = out@;
        assert(views(ls@)[i as int] == ls@[i as int]@);
        if starts_with(t, prefix) {
            out.push(String::from_str(t));
            assert(views(out@) =~= views(before).push(t@));
        }
        i = i + 1;
    }
    assert(views(ls@).len() == ls@.len());
}

/// The list-style lines of `config` that begin with `prefix`, main file first.
pub fn list_entries(config: &HyprlandConfig, prefix: &str) -> (r: Vec<String>)
    ensures
        views(r@) == config_list_lines(*config, prefix@),
{
    let main = main_lines(config);
    let files = sourced_lines(config);
    let mut out: Vec<String> = Vec::new();
    assert(views(out@) =~= Seq::<Seq<char>>::empty());
    collect_list_lines(&main, prefix, &mut out);
    let ghost head = views(out@);
    let mut i: usize = 0;
    while i < files.len()
        invariant
            0 <= i <= files@.len(),
            files@.len() == config_sourced_lines(*config).len(),
            forall|j: int|
                0 <= j < files@.len() ==> views(#[trigger] files@[j]@) == config_sourced_lines(
                    *config,
                )[j],
            head == all_list_lines(config_lines(*config), prefix@),
            views(out@) == head + sourced_list_lines(config_sourced_lines(*config), prefix@, i as int),
        decreases files@.len() - i,
    {
        collect_list_lines(&files[i], prefix, &mut out);
        proof {
            assert(views(files@[i as int]@) == config_sourced_lines(*config)[i as int]);
        }
        assert(views(out@) =~= head + sourced_list_lines(
            config_sourced_lines(*config),
            prefix@,
            i + 1,
        ));
        i = i + 1;
    }
    out
}

/// The `monitor=` lines of `config`, trimmed, main file first.
pub fn monitor_lines(config: &HyprlandConfig) -> (r: Vec<String>)
    ensures
        views(r@) == config_list_lines(*config, monitor_prefix()),
{
    let p = "monitor=";
    proof {
        reveal_strlit("monitor=");
        assert(p@ =~= monitor_prefix());
    }
    list_entries(config, p)
}

/// The `workspace=` lines of `config`, trimmed, main file first.
pub fn workspace_lines(config: &HyprlandConfig) -> (r: Vec<String>)
    ensures
        views(r@) == config_list_lines(*config, workspace_prefix()),
{
    let p = "workspace=";
    proof {
        reveal_strlit("workspace=");
        assert(p@ =~= workspace_prefix());
    }
    list_entries(config, p)
}

/// The pieces of `s` from position `i` on, split at each `,`.
pub open spec fn fields_from(s: Seq<char>, i: int) -> Seq<Seq<char>> {
    pieces_from(s, ',', i)
}

/// What follows the first `=` of a line, if it has one.
pub open spec fn after_eq(l: Seq<char>) -> Option<Seq<char>> {
    let k = first_from(l, '=', 0);
    if k >= l.len() {
        None
    } else {
        Some(l.subrange(k + 1, l.len() as int))
    }
}

/// The `i`-th field, trimmed, or nothing where there are fewer fields.
pub open spec fn field_or_empty(parts: Seq<Seq<char>>, i: int) -> Seq<char> {
    if 0 <= i < parts.len() {
        trimmed(parts[i])
    } else {
        Seq::empty()
    }
}

/// Splits `s` at each `,` from position `from` on.
pub fn split_fields(s: &str, from: usize) -> (r: Vec<String>)
    requires
        from <= s@.len(),
    ensures
        views(r@) == fields_from(s@, from as int),
{
    split_at_char(s, ',', from)
}

/// One `monitor=NAME,MODE,POSITION,SCALE` line read into its fields; missing
/// fields are empty, and a line without `=` has no name.
pub struct MonitorRow {
    pub name: Option<String>,
    pub mode: String,
    pub position: String,
    pub scale: String,
}

/// Whether `r` holds the fields of the `monitor=` line `l`.
pub open spec fn monitor_row_of(r: MonitorRow, l: Seq<char>) -> bool {
    match after_eq(l) {
        None => r.name is None && r.mode@.len() == 0 && r.position@.len() == 0
            && r.scale@.len() == 0,
        Some(rest) => r.name matches Some(nm) && nm@ == field_or_empty(fields_from(rest, 0), 0)
            && r.mode@ == field_or_empty(fields_from(rest, 0), 1)
            && r.position@ == field_or_empty(fields_from(rest, 0), 2)
            && r.scale@ == field_or_empty(fields_from(rest, 0), 3),
    }
}

/// Reads a `monitor=` line into its fields.
pub fn parse_monitor_line(l: &str) -> (r: MonitorRow)
    ensures
        monitor_row_of(r, l@),
{
    let n = l.unicode_len();
    let k = find_char(l, '=', 0);
    proof {
        lemma_first_from(l@, '=', 0);
    }
    if k >= n {
        return MonitorRow {
            name: None,
            mode: String::new(),
            position: String::new(),
            scale: String::new(),
        };
    }
    let rest = slice(l, k + 1, n);
    let parts = split_fields(rest.as_str(), 0);
    let ghost ps = fields_from(rest@, 0);
    assert(views(parts@).len() == parts@.len());
    let name = if parts.len() > 0 { Some(String::from_str(trim(parts[0].as_str()))) } else { None };
    let mode = if parts.len() > 1 { String::from_str(trim(parts[1].as_str())) } else { String::new() };
    let position = if parts.len() > 2 { String::from_str(trim(parts[2].as_str())) } else { String::new() };
    let scale = if parts.len() > 3 { String::from_str(trim(parts[3].as_str())) } else { String::new() };
    proof {
        let rs = rest@;
        let q = first_from(rs, ',', 0);
        lemma_first_from(rs, ',', 0);
        assert(ps.len() > 0);
        assert(views(parts@)[0] == parts@[0]@);
        if parts@.len() > 1 {
            assert(views(parts@)[1] == parts@[1]@);
        }
        if parts@.len() > 2 {
            assert(views(parts@)[2] == parts@[2]@);
        }
        if parts@.len() > 3 {
            assert(views(parts@)[3] == parts@[3]@);
        }
    }
    MonitorRow { name, mode, position, scale }
}

pub open spec fn monitor_tag() -> Seq<char> {
    seq!['m', 'o', 'n', 'i', 't', 'o', 'r', ':']
}

pub open spec fn default_tag() -> Seq<char> {
    seq!['d', 'e', 'f', 'a', 'u', 'l', 't', ':']
}

pub open spec fn true_word() -> Seq<char> {
    seq!['t', 'r', 'u', 'e']
}

pub open spec fn all_digits(s: Seq<char>) -> bool {
    forall|i: int| 0 <= i < s.len() ==> '0' <= #[trigger] s[i] && s[i] <= '9'
}

/// The workspace number, monitor and default flag that the first `n` fields
/// of a `workspace=` line set, each field read after trimming: `monitor:NAME`
/// names the monitor, `default:V` sets the flag to whether `V` is `true`, and
/// a field of digits alone is the number. A later field wins.
pub open spec fn workspace_fields(parts: Seq<Seq<char>>, n: int) -> (Seq<char>, Option<Seq<char>>, bool)
    decreases n,
{
    if n <= 0 {
        (seq!['1'], None, false)
    } else {
        let (num, mon, def) = workspace_fields(parts, n - 1);
        let p = trimmed(parts[n - 1]);
        if has_prefix(p, monitor_tag()) {
            (num, Some(p.subrange(8, p.len() as int)), def)
        } else if has_prefix(p, default_tag()) {
            (num, mon, p.subrange(8, p.len() as int) == true_word())
        } else if all_digits(p) {
            (p, mon, def)
        } else {
            (num, mon, def)
        }
    }
}

/// One `workspace=NUMBER,monitor:NAME,default:true` line read into its parts.
pub struct WorkspaceRow {
    pub number: String,
    pub monitor: Option<String>,
    pub is_default: bool,
}

pub open spec fn row_matches(r: WorkspaceRow, v: (Seq<char>, Option<Seq<char>>, bool)) -> bool {
    &&& r.number@ == v.0
    &&& match v.1 {
        Some(m) => r.monitor matches Some(rm) && rm@ == m,
        None => r.monitor is None,
    }
    &&& r.is_default == v.2
}

fn digits_only(s: &str) -> (r: bool)
    ensures
        r == all_digits(s@),
{
    let n = s.unicode_len();
    let mut i: usize = 0;
    while i < n
        invariant
            n == s@.len(),
            0 <= i <= n,
            forall|j: int| 0 <= j < i ==> '0' <= #[trigger] s@[j] && s@[j] <= '9',
        decreases n - i,
    {
        let c = s.get_char(i);
        if !('0' <= c && c <= '9') {
            return false;
        }
        i = i + 1;
    }
    true
}

/// The number, monitor and default flag of the `workspace=` line `l`.
pub open spec fn workspace_row_of(l: Seq<char>) -> (Seq<char>, Option<Seq<char>>, bool) {
    match after_eq(l) {
        None => workspace_fields(Seq::empty(), 0),
        Some(rest) => workspace_fields(fields_from(rest, 0), fields_from(rest, 0).len() as int),
    }
}

/// Reads a `workspace=` line; a line without `=` gives workspace `1` on no
/// monitor, not the default.
pub fn parse_workspace_line(l: &str) -> (r: WorkspaceRow)
    ensures
        row_matches(r, workspace_row_of(l@)),
{
    let one = "1";
    let mon_tag = "monitor:";
    let def_tag = "default:";
    let yes = "true";
    proof {
        reveal_strlit("1");
        reveal_strlit("monitor:");
        reveal_strlit("default:");
        reveal_strlit("true");
        assert(one@ =~= seq!['1']);
        assert(mon_tag@ =~= monitor_tag());
        assert(def_tag@ =~= default_tag());
        assert(yes@ =~= true_word());
    }
    let mut number = String::from_str(one);
    let mut monitor: Option<String> = None;
    let mut is_default = false;
    let n = l.unicode_len();
    let k = find_char(l, '=', 0);
    proof {
        lemma_first_from(l@, '=', 0);
    }
    if k >= n {
        return WorkspaceRow { number, monitor, is_default };
    }
    let rest = slice(l, k + 1, n);
    let parts = split_fields(rest.as_str(), 0);
    let ghost ps = views(parts@);
    let mut i: usize = 0;
    while i < parts.len()
        invariant
            0 <= i <= parts@.len(),
            ps == views(parts@),
            ps == fields_from(rest@, 0),
            mon_tag@ == monitor_tag(),
            def_tag@ == default_tag(),
            yes@ == true_word(),
            row_matches(WorkspaceRow { number, monitor, is_default }, workspace_fields(ps, i as int)),
        decreases parts@.len() - i,
    {
        let p = trim(parts[i].as_str());
        assert(ps[i as int] == parts@[i as int]@);
        let pn = p.unicode_len();
        if starts_with(p, mon_tag) {
            monitor = Some(slice(p, 8, pn));
        } else if starts_with(p, def_tag) {
            let v = p.substring_char(8, pn);
            is_default = same_text(v, yes);
        } else if digits_only(p) {
            number = String::from_str(p);
        }
        i = i + 1;
    }
    WorkspaceRow { number, monitor, is_default }
}

/// The monitor names that the first `n` `monitor=` lines give: the first
/// field after `=`, trimmed, when not empty, each name once, in order.
pub open spec fn names_from_lines(ls: Seq<Seq<char>>, n: int) -> Seq<Seq<char>>
    decreases n,
{
    if n <= 0 {
        Seq::empty()
    } else {
        let before = names_from_lines(ls, n - 1);
        match after_eq(ls[n - 1]) {
            Some(rest) => {
                let nm = trimmed(fields_from(rest, 0)[0]);
                if nm.len() > 0 && !before.contains(nm) {
                    before.push(nm)
                } else {
                    before
                }
            },
            None => before,
        }
    }
}

/// Whether `v` holds a string with the characters of `s`.
pub fn contains_text(v: &Vec<String>, s: &str) -> (r: bool)
    ensures
        r == views(v@).contains(s@),
{
    let mut i: usize = 0;
    while i < v.len()
        invariant
            0 <= i <= v@.len(),
            forall|j: int| 0 <= j < i ==> v@[j]@ != s@,
        decreases v@.len() - i,
    {
        if same_text(v[i].as_str(), s) {
            assert(views(v@)[i as int] == s@);
            return true;
        }
        i = i + 1;
    }
    proof {
        if views(v@).contains(s@) {
            let j = choose|j: int| 0 <= j < views(v@).len() && views(v@)[j] == s@;
            assert(views(v@)[j] == v@[j]@);
        }
    }
    false
}

/// The monitor names that a list of `monitor=` lines mentions, used when the
/// live inventory gives none.
pub fn names_from_monitor_lines(ls: &Vec<String>) -> (r: Vec<String>)
    ensures
        views(r@) == names_from_lines(views(ls@), ls@.len() as int),
{
    let mut out: Vec<String> = Vec::new();
    let mut i: usize = 0;
    while i < ls.len()
        invariant
            0 <= i <= ls@.len(),
            views(out@) == names_from_lines(views(ls@), i as int),
        decreases ls@.len() - i,
    {
        let l = ls[i].as_str();
        assert(views(ls@)[i as int] == l@);
        let n = l.unicode_len();
        let k = find_char(l, '=', 0);
        proof {
            lemma_first_from(l@, '=', 0);
        }
        if k < n {
            let rest = slice(l, k + 1, n);
            let parts = split_fields(rest.as_str(), 0);
            proof {
                lemma_first_from(rest@, ',', 0);
                assert(fields_from(rest@, 0).len() > 0);
                assert(views(parts@).len() == parts@.len());
                assert(views(parts@)[0] == parts@[0]@);
            }
            let nm = trim(parts[0].as_str());
            if nm.unicode_len() > 0 && !contains_text(&out, nm) {
                let ghost before = out@;
                out.push(String::from_str(nm));
                assert(views(out@) =~= views(before).push(nm@));
            }
        }
        i = i + 1;
    }
    out
}

/// What the monitors page shows: a row per `monitor=` line and per
/// `workspace=` line, and the monitor names offered in its dropdowns.
pub struct MonitorsPage {
    pub monitors: Vec<MonitorRow>,
    pub workspaces: Vec<WorkspaceRow>,
    pub names: Vec<String>,
}

/// Reads the monitors page from `config`. The names are those of the live
/// inventory, or, when it has none, those that the `monitor=` lines mention.
pub fn monitors_page(config: &HyprlandConfig, live_names: &Vec<String>) -> (r: MonitorsPage)
    ensures
        r.monitors@.len() == config_list_lines(*config, monitor_prefix()).len(),
        forall|i: int|
            0 <= i < r.monitors@.len() ==> monitor_row_of(
                #[trigger] r.monitors@[i],
                config_list_lines(*config, monitor_prefix())[i],
            ),
        r.workspaces@.len() == config_list_lines(*config, workspace_prefix()).len(),
        forall|i: int|
            0 <= i < r.workspaces@.len() ==> row_matches(
                #[trigger] r.workspaces@[i],
                workspace_row_of(config_list_lines(*config, workspace_prefix())[i]),
            ),
        live_names@.len() > 0 ==> views(r.names@) == views(live_names@),
        live_names@.len() == 0 ==> views(r.names@) == names_from_lines(
            config_list_lines(*config, monitor_prefix()),
            config_list_lines(*config, monitor_prefix()).len() as int,
        ),
{
    let mon = monitor_lines(config);
    let ws = workspace_lines(config);
    let mut monitors: Vec<MonitorRow> = Vec::new();
    let mut i: usize = 0;
    while i < mon.len()
        invariant
            0 <= i <= mon@.len(),
            views(mon@) == config_list_lines(*config, monitor_prefix()),
            monitors@.len() == i,
            forall|j: int| 0 <= j < i ==> monitor_row_of(#[trigger] monitors@[j], views(mon@)[j]),
        decreases mon@.len() - i,
    {
        assert(views(mon@)[i as int] == mon@[i as int]@);
        monitors.push(parse_monitor_line(mon[i].as_str()));
        i = i + 1;
    }
    let mut workspaces: Vec<WorkspaceRow> = Vec::new();
    let mut i: usize = 0;
    while i < ws.len()
        invariant
            0 <= i <= ws@.len(),
            views(ws@) == config_list_lines(*config, workspace_prefix()),
            workspaces@.len() == i,
            forall|j: int|
                0 <= j < i ==> row_matches(#[trigger] workspaces@[j], workspace_row_of(views(ws@)[j])),
        decreases ws@.len() - i,
    {
        assert(views(ws@)[i as int] == ws@[i as int]@);
        workspaces.push(parse_workspace_line(ws[i].as_str()));
        i = i + 1;
    }
    let names = if live_names.len() > 0 {
        let mut names: Vec<String> = Vec::new();
        let mut k: usize = 0;
        while k < live_names.len()
            invariant
                0 <= k <= live_names@.len(),
                views(names@) == views(live_names@).subrange(0, k as int),
            decreases live_names@.len() - k,
        {
            let ghost before = names@;
            names.push(live_names[k].clone());
            assert(views(names@) =~= views(before).push(live_names@[k as int]@));
            assert(views(live_names@).subrange(0, k + 1) =~= views(live_names@).subrange(0, k as int).push(live_names@[k as int]@));
            k = k + 1;
        }
        assert(views(live_names@).subrange(0, live_names@.len() as int) =~= views(live_names@));
        names
    } else {
        assert(views(mon@).len() == mon@.len());
        names_from_monitor_lines(&mon)
    };
    MonitorsPage { monitors, workspaces, names }
}

} // verus!
