//! The live inventory of monitors and the display modes each supports, as
//! the compositor's control tool reports them in JSON.

use vstd::prelude::*;
use serde_json::Value;
use crate::parser::views;
use crate::text::{same_text, trim, trimmed};

verus! {

/// A modes field of a monitor object in the tool's JSON output.
pub enum ModesField {
    /// The object has no such field.
    Absent,
    /// The field is a JSON string.
    Text(String),
    /// The field is a JSON array; each item's text where it is a string.
    List(Vec<Option<String>>),
    /// The field is some other JSON value.
    Other,
}

pub enum ModesView {
    Absent,
    Text(Seq<char>),
    List(Seq<Option<Seq<char>>>),
    Other,
}

pub open spec fn opt_view(o: Option<String>) -> Option<Seq<char>> {
    match o {
        Some(s) => Some(s@),
        None => None,
    }
}

impl View for ModesField {
    type V = ModesView;

    open spec fn view(&self) -> ModesView {
        match self {
            ModesField::Absent => ModesView::Absent,
            ModesField::Text(s) => ModesView::Text(s@),
            ModesField::List(v) => ModesView::List(v@.map_values(|o: Option<String>| opt_view(o))),
            ModesField::Other => ModesView::Other,
        }
    }
}

/// One item of the tool's top-level JSON array: its `name` where that is a
/// string, and its `availableModes` and `modes` fields.
pub struct JsonMonitor {
    pub name: Option<String>,
    pub available_modes: ModesField,
    pub modes: ModesField,
}

pub type JsonMonitorView = (Option<Seq<char>>, ModesView, ModesView);

impl View for JsonMonitor {
    type V = JsonMonitorView;

    open spec fn view(&self) -> JsonMonitorView {
        (opt_view(self.name), self.available_modes@, self.modes@)
    }
}

pub open spec fn json_monitors_view(r: Option<Vec<JsonMonitor>>) -> Option<Seq<JsonMonitorView>> {
    match r {
        Some(v) => Some(v@.map_values(|m: JsonMonitor| m@)),
        None => None,
    }
}

/// The items of the JSON array that `b` holds, or `None` where `b` holds no
/// JSON or no array.
pub uninterp spec fn json_monitor_items(b: Seq<u8>) -> Option<Seq<JsonMonitorView>>;

/// Relies on `serde_json::from_slice` with `Value::as_array`, `Value::get`
/// and `Value::as_str`: the result depends on the bytes alone.
#[verifier::external_body]
fn json_monitors(bytes: &[u8]) -> (r: Option<Vec<JsonMonitor>>)
    ensures
        json_monitors_view(r) == json_monitor_items(bytes@),
{
    let v: Value = serde_json::from_slice(bytes).ok()?;
    let field = |f: Option<&Value>| match f {
        None => ModesField::Absent,
        Some(Value::String(s)) => ModesField::Text(s.clone()),
        Some(Value::Array(a)) => ModesField::List(a.iter().map(|x| x.as_str().map(String::from)).collect()),
        Some(_) => ModesField::Other,
    };
    Some(v.as_array()?.iter().map(|m| JsonMonitor {
        name: m.get("name").and_then(Value::as_str).map(String::from),
        available_modes: field(m.get("availableModes")),
        modes: field(m.get("modes")),
    }).collect())
}

/// The words of `s`, as `str::split_whitespace` gives them.
pub uninterp spec fn words_of(s: Seq<char>) -> Seq<Seq<char>>;

/// Relies on `str::split_whitespace`: the words depend on the characters
/// alone, and none is empty.
#[verifier::external_body]
fn words(s: &str) -> (r: Vec<String>)
    ensures
        views(r@) == words_of(s@),
        forall|i: int| 0 <= i < r@.len() ==> (#[trigger] r@[i])@.len() > 0,
{
    s.split_whitespace().map(String::from).collect()
}

/// `acc` followed by those of the first `n` items that are not in it yet,
/// each once, in order.
pub open spec fn dedup_onto(acc: Seq<Seq<char>>, items: Seq<Seq<char>>, n: int) -> Seq<Seq<char>>
    decreases n,
{
    if n <= 0 {
        acc
    } else {
        let before = dedup_onto(acc, items, n - 1);
        if before.contains(items[n - 1]) {
            before
        } else {
            before.push(items[n - 1])
        }
    }
}

/// The modes among the first `n` raw entries: trimmed, not empty, each once.
pub open spec fn fresh_modes(raw: Seq<Seq<char>>, n: int) -> Seq<Seq<char>>
    decreases n,
{
    if n <= 0 {
        Seq::empty()
    } else {
        let before = fresh_modes(raw, n - 1);
        let t = trimmed(raw[n - 1]);
        if t.len() > 0 && !before.contains(t) {
            before.push(t)
        } else {
            before
        }
    }
}

pub open spec fn preferred_word() -> Seq<char> {
    seq!['p', 'r', 'e', 'f', 'e', 'r', 'r', 'e', 'd']
}

/// One monitor as the tool reports it: its name and its raw mode entries.
pub struct MonitorReport {
    pub name: String,
    pub modes: Vec<String>,
}

impl View for MonitorReport {
    type V = (Seq<char>, Seq<Seq<char>>);

    open spec fn view(&self) -> (Seq<char>, Seq<Seq<char>>) {
        (self.name@, views(self.modes@))
    }
}

pub open spec fn report_views(rs: Seq<MonitorReport>) -> Seq<(Seq<char>, Seq<Seq<char>>)> {
    rs.map_values(|r: MonitorReport| r@)
}

/// The names of the first `n` reports, each once.
pub open spec fn report_names(rs: Seq<(Seq<char>, Seq<Seq<char>>)>, n: int) -> Seq<Seq<char>>
    decreases n,
{
    if n <= 0 {
        Seq::empty()
    } else {
        let before = report_names(rs, n - 1);
        if before.contains(rs[n - 1].0) {
            before
        } else {
            before.push(rs[n - 1].0)
        }
    }
}

/// `preferred`, then every mode of the first `n` reports, each once.
pub open spec fn all_modes_of(rs: Seq<(Seq<char>, Seq<Seq<char>>)>, n: int) -> Seq<Seq<char>>
    decreases n,
{
    if n <= 0 {
        seq![preferred_word()]
    } else {
        let ms = fresh_modes(rs[n - 1].1, rs[n - 1].1.len() as int);
        dedup_onto(all_modes_of(rs, n - 1), ms, ms.len() as int)
    }
}

/// The modes of each of the first `n` reports that lists any, by name.
pub open spec fn modes_by_name_of(rs: Seq<(Seq<char>, Seq<Seq<char>>)>, n: int) -> Seq<(Seq<char>, Seq<Seq<char>>)>
    decreases n,
{
    if n <= 0 {
        Seq::empty()
    } else {
        let ms = fresh_modes(rs[n - 1].1, rs[n - 1].1.len() as int);
        if ms.len() > 0 {
            modes_by_name_of(rs, n - 1).push((rs[n - 1].0, ms))
        } else {
            modes_by_name_of(rs, n - 1)
        }
    }
}

/// The monitors known to the tool and the modes offered for them.
pub struct Inventory {
    pub names: Vec<String>,
    pub modes_by_name: Vec<(String, Vec<String>)>,
    pub all_modes: Vec<String>,
}

pub open spec fn pair_views(v: Seq<(String, Vec<String>)>) -> Seq<(Seq<char>, Seq<Seq<char>>)> {
    v.map_values(|p: (String, Vec<String>)| (p.0@, views(p.1@)))
}

/// Appends `s` to `out` unless `out` holds it already.
fn push_new(out: &mut Vec<String>, s: &str)
    ensures
        views(final(out)@) == if views(old(out)@).contains(s@) {
            views(old(out)@)
        } else {
            views(old(out)@).push(s@)
        },
{
    let mut i: usize = 0;
    while i < out.len()
        invariant
            0 <= i <= out@.len(),
            forall|j: int| 0 <= j < i ==> out@[j]@ != s@,
        decreases out@.len() - i,
    {
        if same_text(out[i].as_str(), s) {
            assert(views(out@)[i as int] == s@);
            return;
        }
        i = i + 1;
    }
    proof {
        if views(out@).contains(s@) {
            let j = choose|j: int| 0 <= j < views(out@).len() && views(out@)[j] == s@;
            assert(views(out@)[j] == out@[j]@);
        }
    }
    let ghost before = out@;
    out.push(String::from_str(s));
    assert(views(out@) =~= views(before).push(s@));
}

/// Appends to `out` each of `items` that it does not hold yet.
fn extend_new(out: &mut Vec<String>, items: &Vec<String>)
    ensures
        views(final(out)@) == dedup_onto(views(old(out)@), views(items@), items@.len() as int),
{
    let ghost start = views(out@);
    let mut i: usize = 0;
    while i < items.len()
        invariant
            0 <= i <= items@.len(),
            views(out@) == dedup_onto(start, views(items@), i as int),
        decreases items@.len() - i,
    {
        assert(views(items@)[i as int] == items@[i as int]@);
        push_new(out, items[i].as_str());
        i = i + 1;
    }
}

/// The usable modes among raw mode entries: trimmed, not empty, each once.
pub fn distinct_modes(raw: &Vec<String>) -> (r: Vec<String>)
    ensures
        views(r@) == fresh_modes(views(raw@), raw@.len() as int),
{
    let mut out: Vec<String> = Vec::new();
    let mut i: usize = 0;
    while i < raw.len()
        invariant
            0 <= i <= raw@.len(),
            views(out@) == fresh_modes(views(raw@), i as int),
        decreases raw@.len() - i,
    {
        let t = trim(raw[i].as_str());
        assert(views(raw@)[i as int] == raw@[i as int]@);
        if t.unicode_len() > 0 {
            push_new(&mut out, t);
        }
        i = i + 1;
    }
    out
}

/// Gathers the reports into the inventory: each name once, the modes of
/// each monitor that lists any, and `preferred` followed by every mode once.
pub fn build_inventory(reports: &Vec<MonitorReport>) -> (r: Inventory)
    ensures
        views(r.names@) == report_names(report_views(reports@), reports@.len() as int),
        views(r.all_modes@) == all_modes_of(report_views(reports@), reports@.len() as int),
        pair_views(r.modes_by_name@) == modes_by_name_of(report_views(reports@), reports@.len() as int),
{
    let ghost rs = report_views(reports@);
    let preferred = "preferred";
    proof {
        reveal_strlit("preferred");
        assert(preferred@ =~= preferred_word());
    }
    let mut names: Vec<String> = Vec::new();
    let mut all_modes: Vec<String> = Vec::new();
    all_modes.push(String::from_str(preferred));
    let mut modes_by_name: Vec<(String, Vec<String>)> = Vec::new();
    assert(views(all_modes@) =~= seq![preferred_word()]);
    assert(views(names@) =~= Seq::<Seq<char>>::empty());
    assert(pair_views(modes_by_name@) =~= Seq::<(Seq<char>, Seq<Seq<char>>)>::empty());
    let mut i: usize = 0;
    while i < reports.len()
        invariant
            0 <= i <= reports@.len(),
            rs == report_views(reports@),
            views(names@) == report_names(rs, i as int),
            views(all_modes@) == all_modes_of(rs, i as int),
            pair_views(modes_by_name@) == modes_by_name_of(rs, i as int),
        decreases reports@.len() - i,
    {
        let rep = &reports[i];
        assert(rs[i as int] == rep@);
        push_new(&mut names, rep.name.as_str());
        let ms = distinct_modes(&rep.modes);
        extend_new(&mut all_modes, &ms);
        assert(views(ms@).len() == ms@.len());
        if ms.len() > 0 {
            let ghost before = modes_by_name@;
            modes_by_name.push((rep.name.clone(), ms));
            assert(pair_views(modes_by_name@) =~= pair_views(before).push((rep@.0, views(modes_by_name@.last().1@))));
        }
        i = i + 1;
    }
    Inventory { names, modes_by_name, all_modes }
}

/// The modes listed for the last report named `name` among the first `n`.
pub open spec fn modes_named(pairs: Seq<(Seq<char>, Seq<Seq<char>>)>, name: Seq<char>, n: int) -> Option<Seq<Seq<char>>>
    decreases n,
{
    if n <= 0 {
        None
    } else if pairs[n - 1].0 == name {
        Some(pairs[n - 1].1)
    } else {
        modes_named(pairs, name, n - 1)
    }
}

/// The modes a monitor row offers: `preferred`, then the modes of the chosen
/// monitor when the inventory lists them, else every known mode; each once.
pub open spec fn mode_choices_of(
    pairs: Seq<(Seq<char>, Seq<Seq<char>>)>,
    all: Seq<Seq<char>>,
    selected: Option<Seq<char>>,
) -> Seq<Seq<char>> {
    let extra = match selected {
        Some(name) => match modes_named(pairs, name, pairs.len() as int) {
            Some(ms) => ms,
            None => all,
        },
        None => all,
    };
    let items = seq![preferred_word()] + extra;
    dedup_onto(Seq::empty(), items, items.len() as int)
}

/// The modes that a monitor row offers for the selected monitor.
pub fn mode_choices(inv: &Inventory, selected: Option<&str>) -> (r: Vec<String>)
    ensures
        views(r@) == mode_choices_of(
            pair_views(inv.modes_by_name@),
            views(inv.all_modes@),
            match selected {
                Some(s) => Some(s@),
                None => None,
            },
        ),
{
    let ghost pairs = pair_views(inv.modes_by_name@);
    let mut found: Option<usize> = None;
    match selected {
        Some(name) => {
            let mut i = inv.modes_by_name.len();
            while i > 0 && found.is_none()
                invariant
                    0 <= i <= inv.modes_by_name@.len(),
                    pairs == pair_views(inv.modes_by_name@),
                    found is None ==> modes_named(pairs, name@, pairs.len() as int)
                        == modes_named(pairs, name@, i as int),
                    found matches Some(k) ==> k < pairs.len() && modes_named(
                        pairs,
                        name@,
                        pairs.len() as int,
                    ) == Some(pairs[k as int].1),
                decreases i,
            {
                assert(pairs[i - 1] == (inv.modes_by_name@[i - 1].0@, views(inv.modes_by_name@[i - 1].1@)));
                if same_text(inv.modes_by_name[i - 1].0.as_str(), name) {
                    found = Some(i - 1);
                }
                i = i - 1;
            }
        },
        None => {},
    }
    let preferred = "preferred";
    proof {
        reveal_strlit("preferred");
        assert(preferred@ =~= preferred_word());
    }
    let mut items: Vec<String> = Vec::new();
    items.push(String::from_str(preferred));
    let source: &Vec<String> = match found {
        Some(k) => &inv.modes_by_name[k].1,
        None => &inv.all_modes,
    };
    let ghost extra = match selected {
        Some(name) => match modes_named(pairs, name@, pairs.len() as int) {
            Some(ms) => ms,
            None => views(inv.all_modes@),
        },
        None => views(inv.all_modes@),
    };
    assert(views(source@) == extra) by {
        match found {
            Some(k) => {
                assert(pairs[k as int] == (inv.modes_by_name@[k as int].0@, views(inv.modes_by_name@[k as int].1@)));
            },
            None => {},
        }
    }
    assert(views(items@) =~= seq![preferred_word()] + views(source@).subrange(0, 0));
    let mut j: usize = 0;
    while j < source.len()
        invariant
            0 <= j <= source@.len(),
            views(source@) == extra,
            views(items@) == seq![preferred_word()] + views(source@).subrange(0, j as int),
        decreases source@.len() - j,
    {
        let ghost before = items@;
        items.push(source[j].clone());
        assert(views(items@) =~= views(before).push(source@[j as int]@));
        assert(views(source@).subrange(0, j + 1) =~= views(source@).subrange(0, j as int).push(source@[j as int]@));
        j = j + 1;
    }
    assert(views(source@).subrange(0, source@.len() as int) =~= views(source@));
    let mut out: Vec<String> = Vec::new();
    assert(views(out@) =~= Seq::<Seq<char>>::empty());
    extend_new(&mut out, &items);
    out
}

/// The texts among the first `n` items, in order.
pub open spec fn texts_of(xs: Seq<Option<Seq<char>>>, n: int) -> Seq<Seq<char>>
    decreases n,
{
    if n <= 0 {
        Seq::empty()
    } else {
        match xs[n - 1] {
            Some(t) => texts_of(xs, n - 1).push(t),
            None => texts_of(xs, n - 1),
        }
    }
}

/// The raw modes of a field: the words of a text, or the texts of an array.
pub open spec fn field_modes(f: ModesView) -> Seq<Seq<char>> {
    match f {
        ModesView::Text(s) => words_of(s),
        ModesView::List(xs) => texts_of(xs, xs.len() as int),
        _ => Seq::empty(),
    }
}

/// The raw modes of an item: those of `availableModes`, or, lacking that
/// field, those of `modes`.
pub open spec fn item_modes(it: JsonMonitorView) -> Seq<Seq<char>> {
    if it.1 is Absent {
        field_modes(it.2)
    } else {
        field_modes(it.1)
    }
}

/// A report for each of the first `n` items that has a text name, in order.
pub open spec fn reports_from(items: Seq<JsonMonitorView>, n: int) -> Seq<(Seq<char>, Seq<Seq<char>>)>
    decreases n,
{
    if n <= 0 {
        Seq::empty()
    } else {
        match items[n - 1].0 {
            Some(name) => reports_from(items, n - 1).push((name, item_modes(items[n - 1]))),
            None => reports_from(items, n - 1),
        }
    }
}

/// The reports that the tool's output holds; none where it is not a JSON
/// array.
pub open spec fn reports_of(j: Option<Seq<JsonMonitorView>>) -> Seq<(Seq<char>, Seq<Seq<char>>)> {
    match j {
        Some(items) => reports_from(items, items.len() as int),
        None => Seq::empty(),
    }
}

fn field_raw_modes(f: &ModesField) -> (r: Vec<String>)
    ensures
        views(r@) == field_modes(f@),
{
    match f {
        ModesField::Text(s) => words(s.as_str()),
        ModesField::List(xs) => {
            let ghost xv = xs@.map_values(|o: Option<String>| opt_view(o));
            let mut out: Vec<String> = Vec::new();
            let mut k: usize = 0;
            while k < xs.len()
                invariant
                    0 <= k <= xs@.len(),
                    xv == xs@.map_values(|o: Option<String>| opt_view(o)),
                    views(out@) == texts_of(xv, k as int),
                decreases xs@.len() - k,
            {
                assert(xv[k as int] == opt_view(xs@[k as int]));
                match &xs[k] {
                    Some(t) => {
                        let ghost before = out@;
                        out.push(t.clone());
                        assert(views(out@) =~= views(before).push(t@));
                    },
                    None => {},
                }
                k = k + 1;
            }
            out
        },
        _ => {
            let out: Vec<String> = Vec::new();
            assert(views(out@) =~= Seq::<Seq<char>>::empty());
            out
        },
    }
}

/// The reports in the tool's JSON output: each item of the top-level array
/// that has a text `name`, with the modes of its `availableModes` field (or,
/// lacking that, `modes`): the words of a text, or the text items of an
/// array. Output that is not such an array gives no report.
pub fn reports_from_json(bytes: &[u8]) -> (r: Vec<MonitorReport>)
    ensures
        report_views(r@) == reports_of(json_monitor_items(bytes@)),
{
    let mut out: Vec<MonitorReport> = Vec::new();
    let items = match json_monitors(bytes) {
        Some(items) => items,
        None => {
            assert(report_views(out@) =~= Seq::<(Seq<char>, Seq<Seq<char>>)>::empty());
            return out;
        },
    };
    let ghost iv = items@.map_values(|m: JsonMonitor| m@);
    assert(report_views(out@) =~= Seq::<(Seq<char>, Seq<Seq<char>>)>::empty());
    let mut i: usize = 0;
    while i < items.len()
        invariant
            0 <= i <= items@.len(),
            iv == items@.map_values(|m: JsonMonitor| m@),
            report_views(out@) == reports_from(iv, i as int),
        decreases items@.len() - i,
    {
        let m = &items[i];
        assert(iv[i as int] == m@);
        match &m.name {
            Some(name) => {
                let modes = match &m.available_modes {
                    ModesField::Absent => field_raw_modes(&m.modes),
                    other => field_raw_modes(other),
                };
                let ghost before = out@;
                out.push(MonitorReport { name: name.clone(), modes });
                assert(report_views(out@) =~= report_views(before).push(out@.last()@));
            },
            None => {},
        }
        i = i + 1;
    }
    out
}

} // verus!
