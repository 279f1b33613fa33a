//! Merging pending edits into a parsed configuration.

use vstd::prelude::*;
use hyprparser::HyprlandConfig;
use crate::changes::PendingChange;
use crate::parser::{
    add_entry, config_lines, config_sourced_paths, config_with_entry, entry_safe,
    entry_safe_check, main_lines, set_main_lines, views,
};
use crate::registry::{OptionDescriptor, OptionKind, kind_in, kind_of};
use crate::text::{
    find_char, first_from, has_prefix, lemma_first_from, pieces_from, same_text, slice,
    split_at_char, starts_with, trim, trimmed,
};

verus! {

/// The category whose `group:name` keys name top-level sections of their own.
pub open spec fn layouts_word() -> Seq<char> {
    seq!['l', 'a', 'y', 'o', 'u', 't', 's']
}

/// The section that holds `key` of `category`. A key `group:name` lives in
/// the nested section `category.group`, or in the section `group` for the
/// layouts category.
pub open spec fn entry_section(category: Seq<char>, key: Seq<char>) -> Seq<char> {
    let k = first_from(key, ':', 0);
    if k >= key.len() {
        category
    } else if category == layouts_word() {
        key.subrange(0, k)
    } else {
        category + seq!['.'] + key.subrange(0, k)
    }
}

/// The name that `key` has inside its section: what follows its first `:`.
pub open spec fn entry_name(key: Seq<char>) -> Seq<char> {
    let k = first_from(key, ':', 0);
    if k >= key.len() {
        key
    } else {
        key.subrange(k + 1, key.len() as int)
    }
}

/// An assignment line of the configuration grammar.
pub open spec fn assignment(name: Seq<char>, value: Seq<char>) -> Seq<char> {
    name + seq![' ', '=', ' '] + value
}

pub open spec fn is_hex_digit(c: char) -> bool {
    ('0' <= c && c <= '9') || ('a' <= c && c <= 'f') || ('A' <= c && c <= 'F')
}

pub open spec fn all_hex(s: Seq<char>) -> bool {
    forall|i: int| 0 <= i < s.len() ==> is_hex_digit(#[trigger] s[i])
}

/// `rgba(` + `digits` + `)`.
pub open spec fn rgba_of(digits: Seq<char>) -> Seq<char> {
    seq!['r', 'g', 'b', 'a', '('] + digits + seq![')']
}

/// A color written as `#RRGGBB`, `#RRGGBBAA`, `0xAARRGGBB` or `rgb(RRGGBB)`
/// becomes `rgba(RRGGBBAA)`, opaque where no alpha is given; any other text
/// is kept.
pub open spec fn normalized_color(v: Seq<char>) -> Seq<char> {
    if v.len() == 7 && v[0] == '#' && all_hex(v.subrange(1, 7)) {
        rgba_of(v.subrange(1, 7) + seq!['f', 'f'])
    } else if v.len() == 9 && v[0] == '#' && all_hex(v.subrange(1, 9)) {
        rgba_of(v.subrange(1, 9))
    } else if v.len() == 10 && v[0] == '0' && v[1] == 'x' && all_hex(v.subrange(2, 10)) {
        rgba_of(v.subrange(4, 10) + v.subrange(2, 4))
    } else if v.len() == 11 && v.subrange(0, 4) == seq!['r', 'g', 'b', '('] && v[10] == ')'
        && all_hex(v.subrange(4, 10)) {
        rgba_of(v.subrange(4, 10) + seq!['f', 'f'])
    } else {
        v
    }
}

/// The text written for a value of the given kind.
pub open spec fn formatted_value(kind: OptionKind, v: Seq<char>) -> Seq<char> {
    if kind == OptionKind::Color {
        normalized_color(v)
    } else {
        v
    }
}

fn hex_digit(c: char) -> (r: bool)
    ensures
        r == is_hex_digit(c),
{
    ('0' <= c && c <= '9') || ('a' <= c && c <= 'f') || ('A' <= c && c <= 'F')
}

fn hex_between(s: &str, from: usize, to: usize) -> (r: bool)
    requires
        from <= to <= s@.len(),
    ensures
        r == all_hex(s@.subrange(from as int, to as int)),
{
    let mut i = from;
    while i < to
        invariant
            from <= i <= to,
            to <= s@.len(),
            forall|j: int| from <= j < i ==> is_hex_digit(#[trigger] s@[j]),
        decreases to - i,
    {
        if !hex_digit(s.get_char(i)) {
            assert(s@.subrange(from as int, to as int)[i - from] == s@[i as int]);
            return false;
        }
        i = i + 1;
    }
    assert forall|j: int| 0 <= j < to - from implies is_hex_digit(
        #[trigger] s@.subrange(from as int, to as int)[j],
    ) by {
        assert(s@.subrange(from as int, to as int)[j] == s@[from + j]);
    }
    true
}

fn rgba(digits: String) -> (r: String)
    ensures
        r@ == rgba_of(digits@),
{
    let open = "rgba(";
    let close = ")";
    proof {
        reveal_strlit("rgba(");
        reveal_strlit(")");
    }
    String::from_str(open).concat(digits.as_str()).concat(close)
}

/// Writes a color in the canonical `rgba(RRGGBBAA)` form where its form is
/// recognised.
pub fn normalize_color(v: &str) -> (r: String)
    ensures
        r@ == normalized_color(v@),
{
    let n = v.unicode_len();
    let opaque = "ff";
    proof {
        reveal_strlit("ff");
    }
    if n == 7 && v.get_char(0) == '#' && hex_between(v, 1, 7) {
        rgba(slice(v, 1, 7).concat(opaque))
    } else if n == 9 && v.get_char(0) == '#' && hex_between(v, 1, 9) {
        rgba(slice(v, 1, 9))
    } else if n == 10 && v.get_char(0) == '0' && v.get_char(1) == 'x' && hex_between(v, 2, 10) {
        let alpha = slice(v, 2, 4);
        rgba(slice(v, 4, 10).concat(alpha.as_str()))
    } else if n == 11 && v.get_char(0) == 'r' && v.get_char(1) == 'g' && v.get_char(2) == 'b'
        && v.get_char(3) == '(' && v.get_char(10) == ')' && hex_between(v, 4, 10) {
        assert(v@.subrange(0, 4) =~= seq!['r', 'g', 'b', '(']);
        rgba(slice(v, 4, 10).concat(opaque))
    } else {
        proof {
            if n == 11 && v@.subrange(0, 4) == seq!['r', 'g', 'b', '('] {
                assert(v@.subrange(0, 4)[0] == v@[0]);
                assert(v@.subrange(0, 4)[1] == v@[1]);
                assert(v@.subrange(0, 4)[2] == v@[2]);
                assert(v@.subrange(0, 4)[3] == v@[3]);
            }
        }
        String::from_str(v)
    }
}

/// The section and the assignment line that a pending edit becomes, with its
/// value written as its kind asks.
pub fn entry_for(category: &str, key: &str, value: &str, kind: OptionKind) -> (r: (String, String))
    ensures
        r.0@ == entry_section(category@, key@),
        r.1@ == assignment(entry_name(key@), formatted_value(kind, value@)),
{
    let n = key.unicode_len();
    let k = find_char(key, ':', 0);
    proof {
        lemma_first_from(key@, ':', 0);
    }
    let layouts = "layouts";
    let dot = ".";
    let eq = " = ";
    proof {
        reveal_strlit("layouts");
        reveal_strlit(".");
        reveal_strlit(" = ");
        assert(layouts@ =~= layouts_word());
        assert(dot@ =~= seq!['.']);
        assert(eq@ =~= seq![' ', '=', ' ']);
    }
    let (section, name) = if k >= n {
        (String::from_str(category), String::from_str(key))
    } else if same_text(category, layouts) {
        (slice(key, 0, k), slice(key, k + 1, n))
    } else {
        let group = slice(key, 0, k);
        (String::from_str(category).concat(dot).concat(group.as_str()), slice(key, k + 1, n))
    };
    let v = if kind == OptionKind::Color {
        normalize_color(value)
    } else {
        String::from_str(value)
    };
    (section, name.concat(eq).concat(v.as_str()))
}

/// The category whose edits are list-style: the key names the kind of line
/// (`monitor`, `workspace`) and the value holds the new lines, one per line.
pub open spec fn list_category() -> Seq<char> {
    seq!['m', 'o', 'n', 'i', 't', 'o', 'r', 's']
}

pub open spec fn is_list_change(c: PendingChange) -> bool {
    c.category@ == list_category()
}

/// The lines that a list-style value holds; an empty value holds none.
pub open spec fn value_lines(v: Seq<char>) -> Seq<Seq<char>> {
    if v.len() == 0 {
        Seq::empty()
    } else {
        pieces_from(v, '\n', 0)
    }
}

/// The lines `ls` after the list-style edits among the first `n` changes,
/// in order: each replaces the lines that begin with its key and `=`.
pub open spec fn with_list_edits(ls: Seq<Seq<char>>, changes: Seq<PendingChange>, n: int) -> Seq<Seq<char>>
    decreases n,
{
    if n <= 0 {
        ls
    } else {
        let before = with_list_edits(ls, changes, n - 1);
        let c = changes[n - 1];
        if is_list_change(c) {
            replaced_list(before, c.key@ + seq!['='], value_lines(c.value@))
        } else {
            before
        }
    }
}

fn is_list_category(category: &str) -> (r: bool)
    ensures
        r == (category@ == list_category()),
{
    let word = "monitors";
    proof {
        reveal_strlit("monitors");
        assert(word@ =~= list_category());
    }
    same_text(category, word)
}

/// The section and assignment line of each keyed edit among the first `n`
/// changes, in order; list-style edits give none.
pub open spec fn keyed_entries_of(
    changes: Seq<PendingChange>,
    catalog: Seq<OptionDescriptor>,
    n: int,
) -> Seq<(Seq<char>, Seq<char>)>
    decreases n,
{
    if n <= 0 {
        Seq::empty()
    } else {
        let before = keyed_entries_of(changes, catalog, n - 1);
        let c = changes[n - 1];
        if is_list_change(c) {
            before
        } else {
            before.push(
                (
                    entry_section(c.category@, c.key@),
                    assignment(
                        entry_name(c.key@),
                        formatted_value(kind_in(catalog, c.category@, c.key@), c.value@),
                    ),
                ),
            )
        }
    }
}

/// The section and assignment line that each keyed edit becomes, in order.
pub fn keyed_entries(changes: &Vec<PendingChange>, catalog: &Vec<OptionDescriptor>) -> (r: Vec<(String, String)>)
    ensures
        r@.map_values(|e: (String, String)| (e.0@, e.1@)) == keyed_entries_of(
            changes@,
            catalog@,
            changes@.len() as int,
        ),
{
    let mut out: Vec<(String, String)> = Vec::new();
    let mut i: usize = 0;
    while i < changes.len()
        invariant
            0 <= i <= changes@.len(),
            out@.map_values(|e: (String, String)| (e.0@, e.1@)) == keyed_entries_of(
                changes@,
                catalog@,
                i as int,
            ),
        decreases changes@.len() - i,
    {
        let c = &changes[i];
        if !is_list_category(c.category.as_str()) {
            let kind = kind_of(catalog, c.category.as_str(), c.key.as_str());
            let e = entry_for(c.category.as_str(), c.key.as_str(), c.value.as_str(), kind);
            let ghost before = out@;
            out.push(e);
            assert(out@.map_values(|e: (String, String)| (e.0@, e.1@)) =~= before.map_values(
                |e: (String, String)| (e.0@, e.1@),
            ).push((e.0@, e.1@)));
        }
        i = i + 1;
    }
    out
}

/// The section and line of each entry, as characters.
pub open spec fn entry_views(entries: Seq<(String, String)>) -> Seq<(Seq<char>, Seq<char>)> {
    entries.map_values(|e: (String, String)| (e.0@, e.1@))
}

/// `c` after setting the first `n` entries, in order.
pub open spec fn entries_applied(c: HyprlandConfig, es: Seq<(Seq<char>, Seq<char>)>, n: int) -> HyprlandConfig
    decreases n,
{
    if n <= 0 {
        c
    } else {
        config_with_entry(entries_applied(c, es, n - 1), es[n - 1].0, es[n - 1].1)
    }
}

/// Whether each of the first `n` entries meets a configuration on which
/// setting it stays within bounds.
pub open spec fn entries_fit(c: HyprlandConfig, es: Seq<(Seq<char>, Seq<char>)>, n: int) -> bool
    decreases n,
{
    n <= 0 || (entries_fit(c, es, n - 1) && entry_safe(entries_applied(c, es, n - 1)))
}

/// Sets each assignment line of `entries` in its section of `config`, in
/// order, as long as each can be set within bounds; tells whether all were
/// set. With no entry, `config` is left exactly as it was.
pub fn apply_entries(config: &mut HyprlandConfig, entries: &Vec<(String, String)>) -> (r: bool)
    ensures
        r == entries_fit(*old(config), entry_views(entries@), entries@.len() as int),
        r ==> *final(config) == entries_applied(*old(config), entry_views(entries@), entries@.len() as int),
        config_sourced_paths(*final(config)) == config_sourced_paths(*old(config)),
{
    let ghost es = entry_views(entries@);
    let mut i: usize = 0;
    while i < entries.len()
        invariant
            0 <= i <= entries@.len(),
            es == entry_views(entries@),
            entries_fit(*old(config), es, i as int),
            *config == entries_applied(*old(config), es, i as int),
            config_sourced_paths(*config) == config_sourced_paths(*old(config)),
        decreases entries@.len() - i,
    {
        if !entry_safe_check(config) {
            proof {
                lemma_fit_stops(*old(config), es, i as int + 1, entries@.len() as int);
            }
            return false;
        }
        assert(es[i as int] == (entries@[i as int].0@, entries@[i as int].1@));
        add_entry(config, entries[i].0.as_str(), entries[i].1.as_str());
        i = i + 1;
    }
    true
}

/// Once an entry does not fit, no longer run fits.
proof fn lemma_fit_stops(c: HyprlandConfig, es: Seq<(Seq<char>, Seq<char>)>, n: int, m: int)
    requires
        1 <= n <= m,
        !entries_fit(c, es, n),
    ensures
        !entries_fit(c, es, m),
    decreases m - n,
{
    if m > n {
        lemma_fit_stops(c, es, n, m - 1);
    }
}

/// Whether `l` is a list-style line of the kind that `prefix` starts.
pub open spec fn is_list_line(l: Seq<char>, prefix: Seq<char>) -> bool {
    has_prefix(trimmed(l), prefix)
}

/// The position of the first list-style line at or after `i`, or the length.
pub open spec fn first_list_line(ls: Seq<Seq<char>>, prefix: Seq<char>, i: int) -> int
    decreases ls.len() - i,
{
    if i >= ls.len() {
        ls.len() as int
    } else if is_list_line(ls[i], prefix) {
        i
    } else {
        first_list_line(ls, prefix, i + 1)
    }
}

/// The lines among the first `n` of `ls` that are not list-style lines.
pub open spec fn other_lines(ls: Seq<Seq<char>>, prefix: Seq<char>, n: int) -> Seq<Seq<char>>
    decreases n,
{
    if n <= 0 {
        Seq::empty()
    } else if is_list_line(ls[n - 1], prefix) {
        other_lines(ls, prefix, n - 1)
    } else {
        other_lines(ls, prefix, n - 1).push(ls[n - 1])
    }
}

/// `ls` with its list-style lines of `prefix` replaced by `new`: the new
/// lines stand where the first old one stood (at the end when there is none),
/// and every other line keeps its order.
pub open spec fn replaced_list(ls: Seq<Seq<char>>, prefix: Seq<char>, new: Seq<Seq<char>>) -> Seq<Seq<char>> {
    let f = first_list_line(ls, prefix, 0);
    let rest = ls.subrange(f, ls.len() as int);
    ls.subrange(0, f) + new + other_lines(rest, prefix, rest.len() as int)
}

proof fn lemma_first_list_line(ls: Seq<Seq<char>>, prefix: Seq<char>, i: int)
    requires
        0 <= i <= ls.len(),
    ensures
        i <= first_list_line(ls, prefix, i) <= ls.len(),
        first_list_line(ls, prefix, i) < ls.len() ==> is_list_line(ls[first_list_line(ls, prefix, i)], prefix),
        forall|j: int| i <= j < first_list_line(ls, prefix, i) ==> !is_list_line(#[trigger] ls[j], prefix),
    decreases ls.len() - i,
{
    if i < ls.len() && !is_list_line(ls[i], prefix) {
        lemma_first_list_line(ls, prefix, i + 1);
    }
}

/// Replaces the list-style lines of `prefix` in `lines` by `new_lines`.
pub fn replace_list_lines(lines: &Vec<String>, prefix: &str, new_lines: &Vec<String>) -> (r: Vec<String>)
    ensures
        views(r@) == replaced_list(views(lines@), prefix@, views(new_lines@)),
{
    let ghost ls = views(lines@);
    let ghost f = first_list_line(ls, prefix@, 0);
    proof {
        lemma_first_list_line(ls, prefix@, 0);
    }
    let mut out: Vec<String> = Vec::new();
    let mut placed = false;
    let mut i: usize = 0;
    while i < lines.len()
        invariant
            0 <= i <= lines@.len(),
            ls == views(lines@),
            ls.len() == lines@.len(),
            0 <= f <= ls.len(),
            f < ls.len() ==> is_list_line(ls[f], prefix@),
            forall|j: int| 0 <= j < f ==> !is_list_line(#[trigger] ls[j], prefix@),
            placed == (f < i),
            !placed ==> views(out@) == ls.subrange(0, i as int),
            placed ==> views(out@) == ls.subrange(0, f) + views(new_lines@) + other_lines(
                ls.subrange(f, ls.len() as int),
                prefix@,
                i - f,
            ),
        decreases lines@.len() - i,
    {
        let l = lines[i].as_str();
        assert(ls[i as int] == l@);
        let ghost before = out@;
        let ghost rest = ls.subrange(f, ls.len() as int);
        if starts_with(trim(l), prefix) {
            if !placed {
                let mut j: usize = 0;
                while j < new_lines.len()
                    invariant
                        0 <= j <= new_lines@.len(),
                        views(out@) == views(before) + views(new_lines@).subrange(0, j as int),
                    decreases new_lines@.len() - j,
                {
                    let ghost b2 = out@;
                    out.push(new_lines[j].clone());
                    assert(views(out@) =~= views(b2).push(new_lines@[j as int]@));
                    assert(views(new_lines@).subrange(0, j + 1) =~= views(new_lines@).subrange(0, j as int).push(new_lines@[j as int]@));
                    j = j + 1;
                }
                placed = true;
                proof {
                    assert(views(new_lines@).subrange(0, new_lines@.len() as int) =~= views(new_lines@));
                    assert(i as int == f);
                    assert(rest[0] == ls[f]);
                    assert(other_lines(rest, prefix@, 1) == other_lines(rest, prefix@, 0));
                    assert(views(out@) =~= ls.subrange(0, f) + views(new_lines@) + other_lines(rest, prefix@, i + 1 - f));
                }
            } else {
                proof {
                    assert(rest[i - f] == ls[i as int]);
                }
            }
        } else {
            out.push(lines[i].clone());
            proof {
                if placed {
                    assert(rest[i - f] == ls[i as int]);
                    assert(views(out@) =~= views(before).push(ls[i as int]));
                } else {
                    assert(views(out@) =~= ls.subrange(0, i + 1));
                }
            }
        }
        i = i + 1;
    }
    if !placed {
        let mut j: usize = 0;
        let ghost before = out@;
        while j < new_lines.len()
            invariant
                0 <= j <= new_lines@.len(),
                views(out@) == views(before) + views(new_lines@).subrange(0, j as int),
            decreases new_lines@.len() - j,
        {
            let ghost b2 = out@;
            out.push(new_lines[j].clone());
            assert(views(out@) =~= views(b2).push(new_lines@[j as int]@));
            assert(views(new_lines@).subrange(0, j + 1) =~= views(new_lines@).subrange(0, j as int).push(new_lines@[j as int]@));
            j = j + 1;
        }
        proof {
            assert(views(new_lines@).subrange(0, new_lines@.len() as int) =~= views(new_lines@));
            let rest = ls.subrange(f, ls.len() as int);
            assert(rest.len() == 0);
            assert(ls.subrange(0, f) =~= ls);
            assert(views(out@) =~= replaced_list(ls, prefix@, views(new_lines@)));
        }
    } else {
        proof {
            assert(ls.len() - f == ls.subrange(f, ls.len() as int).len());
        }
    }
    out
}

/// Replaces, for each list-style edit, the lines of its kind in the main file
/// of `config` by the lines it holds. Without list-style edits, `config` is
/// left exactly as it was. The main file is where list-style lines are
/// rewritten: sourced files are left as they are, so a line of that kind
/// kept in a sourced file stays there beside the new lines.
pub fn apply_list_edits(config: &mut HyprlandConfig, changes: &Vec<PendingChange>)
    ensures
        config_sourced_paths(*final(config)) == config_sourced_paths(*old(config)),
        (forall|i: int| 0 <= i < changes@.len() ==> !is_list_change(#[trigger] changes@[i]))
            ==> *final(config) == *old(config),
        (exists|i: int| 0 <= i < changes@.len() && is_list_change(#[trigger] changes@[i]))
            ==> config_lines(*final(config)) == with_list_edits(
            config_lines(*old(config)),
            changes@,
            changes@.len() as int,
        ),
{
    let mut any = false;
    let mut i: usize = 0;
    while i < changes.len()
        invariant
            0 <= i <= changes@.len(),
            !any ==> forall|j: int| 0 <= j < i ==> !is_list_change(#[trigger] changes@[j]),
            any ==> exists|j: int| 0 <= j < changes@.len() && is_list_change(#[trigger] changes@[j]),
        decreases changes@.len() - i,
    {
        if is_list_category(changes[i].category.as_str()) {
            any = true;
        }
        i = i + 1;
    }
    if !any {
        return;
    }
    let mut lines = main_lines(config);
    let equals = "=";
    proof {
        reveal_strlit("=");
        assert(equals@ =~= seq!['=']);
    }
    let mut i: usize = 0;
    while i < changes.len()
        invariant
            0 <= i <= changes@.len(),
            equals@ == seq!['='],
            views(lines@) == with_list_edits(config_lines(*config), changes@, i as int),
        decreases changes@.len() - i,
    {
        let c = &changes[i];
        if is_list_category(c.category.as_str()) {
            let prefix = c.key.clone().concat(equals);
            let new_lines = if c.value.unicode_len() == 0 {
                Vec::new()
            } else {
                split_at_char(c.value.as_str(), '\n', 0)
            };
            proof {
                if c.value@.len() == 0 {
                    assert(views(new_lines@) =~= Seq::<Seq<char>>::empty());
                }
            }
            lines = replace_list_lines(&lines, prefix.as_str(), &new_lines);
        }
        i = i + 1;
    }
    set_main_lines(config, lines);
}

/// A `monitor=` line with its four fields.
pub fn monitor_entry(name: &str, mode: &str, position: &str, scale: &str) -> (r: String)
    ensures
        r@ == seq!['m', 'o', 'n', 'i', 't', 'o', 'r', '='] + name@ + seq![','] + mode@ + seq![',']
            + position@ + seq![','] + scale@,
{
    let head = "monitor=";
    let comma = ",";
    proof {
        reveal_strlit("monitor=");
        reveal_strlit(",");
    }
    String::from_str(head).concat(name).concat(comma).concat(mode).concat(comma).concat(position).concat(
        comma,
    ).concat(scale)
}

/// A `workspace=` line: the number, then the monitor if one is given, then
/// `default:true` for the default workspace.
pub fn workspace_entry(number: &str, monitor: Option<&str>, is_default: bool) -> (r: String)
    ensures
        r@ == seq!['w', 'o', 'r', 'k', 's', 'p', 'a', 'c', 'e', '='] + number@ + match monitor {
            Some(m) => seq![',', 'm', 'o', 'n', 'i', 't', 'o', 'r', ':'] + m@,
            None => Seq::empty(),
        } + if is_default {
            seq![',', 'd', 'e', 'f', 'a', 'u', 'l', 't', ':', 't', 'r', 'u', 'e']
        } else {
            Seq::empty()
        },
{
    let head = "workspace=";
    let on = ",monitor:";
    let default = ",default:true";
    proof {
        reveal_strlit("workspace=");
        reveal_strlit(",monitor:");
        reveal_strlit(",default:true");
    }
    let mut r = String::from_str(head).concat(number);
    match monitor {
        Some(m) => {
            r = r.concat(on).concat(m);
        },
        None => {},
    }
    if is_default {
        r = r.concat(default);
    }
    r
}

} // verus!
