//! The configuration parser that this library builds on, and what it relies
//! on of it.

use vstd::prelude::*;
use hyprparser::HyprlandConfig;
use crate::text::{decimal, decimal_of, ends_with, first_from, has_suffix, lemma_first_from};

verus! {

#[verifier::external_type_specification]
#[verifier::external_body]
pub struct ExHyprlandConfig(HyprlandConfig);

/// The lines of the main file that a parsed configuration holds.
pub uninterp spec fn config_lines(c: HyprlandConfig) -> Seq<Seq<char>>;

/// The paths of the files that a parsed configuration sources, in order.
pub uninterp spec fn config_sourced_paths(c: HyprlandConfig) -> Seq<Seq<char>>;

/// The lines of each sourced file that a parsed configuration holds.
pub uninterp spec fn config_sourced_lines(c: HyprlandConfig) -> Seq<Seq<Seq<char>>>;

/// The bounds of each section of the main file, by section name.
pub uninterp spec fn config_sections(c: HyprlandConfig) -> Map<Seq<char>, (usize, usize)>;

/// The bounds of each section of the sourced files, by section name followed
/// by `_` and the index of its file.
pub uninterp spec fn config_sourced_sections(c: HyprlandConfig) -> Map<Seq<char>, (usize, usize)>;

/// The configuration after `HyprlandConfig::add_entry(category, entry)`.
pub uninterp spec fn config_with_entry(c: HyprlandConfig, category: Seq<char>, entry: Seq<char>) -> HyprlandConfig;

/// The characters of each string.
pub open spec fn views(v: Seq<String>) -> Seq<Seq<char>> {
    v.map_values(|s: String| s@)
}

/// A line ended by `"\r\n"` loses its `'\r'`.
pub open spec fn strip_cr(l: Seq<char>) -> Seq<char> {
    if l.len() > 0 && l.last() == '\r' {
        l.drop_last()
    } else {
        l
    }
}

/// The lines of `s` from position `i` on: split at each `'\n'`, a `'\r'` just
/// before it dropped, with no empty line after a final `'\n'`.
pub open spec fn lines_from(s: Seq<char>, i: int) -> Seq<Seq<char>>
    decreases s.len() - i,
{
    let k = first_from(s, '\n', i);
    if i < 0 || i >= s.len() || k < i {
        Seq::empty()
    } else if k >= s.len() {
        seq![s.subrange(i, s.len() as int)]
    } else {
        seq![strip_cr(s.subrange(i, k))] + lines_from(s, k + 1)
    }
}

/// The lines of a text, as `str::lines` splits it.
pub open spec fn lines_of(s: Seq<char>) -> Seq<Seq<char>> {
    lines_from(s, 0)
}

/// Lines joined by `'\n'`, with no line break after the last one.
pub open spec fn join_lines(ls: Seq<Seq<char>>) -> Seq<char>
    decreases ls.len(),
{
    if ls.len() == 0 {
        Seq::empty()
    } else if ls.len() == 1 {
        ls[0]
    } else {
        join_lines(ls.drop_last()) + seq!['\n'] + ls.last()
    }
}

proof fn lemma_join_prepend(a: Seq<char>, rest: Seq<Seq<char>>)
    requires
        rest.len() > 0,
    ensures
        join_lines(seq![a] + rest) == a + seq!['\n'] + join_lines(rest),
    decreases rest.len(),
{
    let all = seq![a] + rest;
    if rest.len() == 1 {
        assert(all.drop_last() =~= seq![a]);
        assert(join_lines(all.drop_last()) == a);
    } else {
        lemma_join_prepend(a, rest.drop_last());
        assert(all.drop_last() =~= seq![a] + rest.drop_last());
        assert(join_lines(all) == join_lines(all.drop_last()) + seq!['\n'] + rest.last());
        assert(join_lines(all) =~= a + seq!['\n'] + join_lines(rest));
    }
}

proof fn lemma_lines_from_round_trip(t: Seq<char>, i: int)
    requires
        0 <= i < t.len(),
        forall|j: int| 0 <= j < t.len() ==> t[j] != '\r',
        t.last() != '\n',
    ensures
        lines_from(t, i).len() > 0,
        join_lines(lines_from(t, i)) == t.subrange(i, t.len() as int),
    decreases t.len() - i,
{
    let k = first_from(t, '\n', i);
    lemma_first_from(t, '\n', i);
    if k < t.len() {
        assert(k + 1 < t.len());
        lemma_lines_from_round_trip(t, k + 1);
        let line = t.subrange(i, k);
        assert(strip_cr(line) == line) by {
            if line.len() > 0 {
                assert(line.last() == t[k - 1]);
            }
        }
        lemma_join_prepend(line, lines_from(t, k + 1));
        assert(t.subrange(i, t.len() as int) =~= line + seq!['\n'] + t.subrange(k + 1, t.len() as int));
    }
}

/// A text without carriage returns or a final line break comes back
/// unchanged when its lines are joined again: the parser's line split
/// loses nothing of it.
pub proof fn lemma_lines_round_trip(t: Seq<char>)
    requires
        forall|j: int| 0 <= j < t.len() ==> t[j] != '\r',
        t.len() == 0 || t.last() != '\n',
    ensures
        join_lines(lines_of(t)) == t,
{
    if t.len() > 0 {
        lemma_lines_from_round_trip(t, 0);
        assert(t.subrange(0, t.len() as int) =~= t);
    } else {
        assert(join_lines(lines_of(t)) =~= t);
    }
}

/// Relies on `hyprparser::parse_config`: the main file's lines are kept as
/// `str::lines` gives them. The sourced files it finds are read from disk.
#[verifier::external_body]
pub(crate) fn parse(text: &str) -> (r: HyprlandConfig)
    ensures
        config_lines(r) == lines_of(text@),
{
    hyprparser::parse_config(text)
}

/// Whether the section bounds `b` lie within `len` lines.
pub open spec fn fits(b: (usize, usize), len: int) -> bool {
    b.0 <= b.1 && (b.1 as int) < len
}

/// The end of a sourced section's name that tells it lies in file `i`.
pub open spec fn file_suffix(i: int) -> Seq<char> {
    seq!['_'] + decimal_of(i as nat)
}

/// Every section bound that `add_entry` may slice by lies within its file:
/// those of the main file within the main file, and those of each sourced
/// file within that file.
pub open spec fn entry_safe(c: HyprlandConfig) -> bool {
    &&& forall|k: Seq<char>|
        #[trigger] config_sections(c).contains_key(k) ==> fits(
            config_sections(c)[k],
            config_lines(c).len() as int,
        )
    &&& forall|k: Seq<char>, i: int|
        #[trigger] config_sourced_sections(c).contains_key(k) && 0 <= i < config_sourced_lines(
            c,
        ).len() && #[trigger] has_suffix(k, file_suffix(i)) ==> fits(
            config_sourced_sections(c)[k],
            config_sourced_lines(c)[i].len() as int,
        )
}

/// `v` lists the entries of `m`, each key with its bounds.
pub open spec fn lists_sections(v: Seq<(String, usize, usize)>, m: Map<Seq<char>, (usize, usize)>) -> bool {
    &&& forall|i: int|
        0 <= i < v.len() ==> #[trigger] m.contains_key(v[i].0@) && m[v[i].0@] == (v[i].1, v[i].2)
    &&& forall|k: Seq<char>| #[trigger]
        m.contains_key(k) ==> exists|i: int| 0 <= i < v.len() && v[i].0@ == k
}

/// Relies on the public field `HyprlandConfig::sections`.
#[verifier::external_body]
fn sections(c: &HyprlandConfig) -> (r: Vec<(String, usize, usize)>)
    ensures
        lists_sections(r@, config_sections(*c)),
{
    c.sections.iter().map(|(k, b)| (k.clone(), b.0, b.1)).collect()
}

/// Relies on the public field `HyprlandConfig::sourced_sections`.
#[verifier::external_body]
fn sourced_sections(c: &HyprlandConfig) -> (r: Vec<(String, usize, usize)>)
    ensures
        lists_sections(r@, config_sourced_sections(*c)),
{
    c.sourced_sections.iter().map(|(k, b)| (k.clone(), b.0, b.1)).collect()
}

/// Whether `add_entry` can be called on `c` without going out of bounds.
pub fn entry_safe_check(c: &HyprlandConfig) -> (r: bool)
    ensures
        r == entry_safe(*c),
{
    let main = sections(c);
    let lines = main_lines(c);
    let n = lines.len();
    assert(views(lines@).len() == config_lines(*c).len());
    let mut i: usize = 0;
    while i < main.len()
        invariant
            0 <= i <= main@.len(),
            lists_sections(main@, config_sections(*c)),
            n == config_lines(*c).len(),
            forall|j: int| 0 <= j < i ==> fits(config_sections(*c)[#[trigger] main@[j].0@], n as int),
        decreases main@.len() - i,
    {
        assert(config_sections(*c).contains_key(main@[i as int].0@));
        if !(main[i].1 <= main[i].2 && main[i].2 < n) {
            return false;
        }
        i = i + 1;
    }
    assert forall|k: Seq<char>| #[trigger] config_sections(*c).contains_key(k) implies fits(
        config_sections(*c)[k],
        n as int,
    ) by {
        let j = choose|j: int| 0 <= j < main@.len() && main@[j].0@ == k;
        assert(config_sections(*c).contains_key(main@[j].0@));
    }
    let src = sourced_sections(c);
    let files = sourced_lines(c);
    let ghost sl = config_sourced_lines(*c);
    let mut i: usize = 0;
    while i < src.len()
        invariant
            0 <= i <= src@.len(),
            lists_sections(src@, config_sourced_sections(*c)),
            sl == config_sourced_lines(*c),
            files@.len() == sl.len(),
            forall|f: int| 0 <= f < files@.len() ==> views(#[trigger] files@[f]@) == sl[f],
            forall|j: int, f: int|
                0 <= j < i && 0 <= f < sl.len() && #[trigger] has_suffix(src@[j].0@, file_suffix(f))
                    ==> fits(config_sourced_sections(*c)[src@[j].0@], sl[f].len() as int),
        decreases src@.len() - i,
    {
        let mut f: usize = 0;
        while f < files.len()
            invariant
                0 <= i < src@.len(),
                0 <= f <= files@.len(),
                lists_sections(src@, config_sourced_sections(*c)),
                sl == config_sourced_lines(*c),
                files@.len() == sl.len(),
                forall|g: int| 0 <= g < files@.len() ==> views(#[trigger] files@[g]@) == sl[g],
                forall|j: int, g: int|
                    0 <= j < i && 0 <= g < sl.len() && #[trigger] has_suffix(src@[j].0@, file_suffix(g))
                        ==> fits(config_sourced_sections(*c)[src@[j].0@], sl[g].len() as int),
                forall|g: int|
                    0 <= g < f && #[trigger] has_suffix(src@[i as int].0@, file_suffix(g)) ==> fits(
                        config_sourced_sections(*c)[src@[i as int].0@],
                        sl[g].len() as int,
                    ),
            decreases files@.len() - f,
        {
            let suffix = String::from_str("_").concat(decimal(f).as_str());
            proof {
                reveal_strlit("_");
                assert(suffix@ =~= file_suffix(f as int));
                assert(views(files@[f as int]@).len() == files@[f as int]@.len());
            }
            let len = files[f].len();
            assert(config_sourced_sections(*c).contains_key(src@[i as int].0@));
            if ends_with(src[i].0.as_str(), suffix.as_str()) && !(src[i].1 <= src[i].2 && src[i].2 < len) {
                assert(config_sourced_sections(*c).contains_key(src@[i as int].0@));
                return false;
            }
            f = f + 1;
        }
        i = i + 1;
    }
    assert forall|k: Seq<char>, g: int|
        #[trigger] config_sourced_sections(*c).contains_key(k) && 0 <= g < sl.len()
            && #[trigger] has_suffix(k, file_suffix(g)) implies fits(
        config_sourced_sections(*c)[k],
        sl[g].len() as int,
    ) by {
        let j = choose|j: int| 0 <= j < src@.len() && src@[j].0@ == k;
        assert(has_suffix(src@[j].0@, file_suffix(g)));
    }
    true
}

/// Relies on `HyprlandConfig::add_entry`: sets `entry` (`key = value`) in the
/// section `category` (nested sections joined by `.`), a function of the
/// configuration and the two strings alone. It leaves the list of sourced
/// paths as it was. Where the section lives in a sourced file, the parser
/// also writes that file back to disk itself. It slices the lines of a file
/// by the bounds of its sections, so every such bound must lie within its
/// file.
#[verifier::external_body]
pub(crate) fn add_entry(c: &mut HyprlandConfig, category: &str, entry: &str)
    requires
        entry_safe(*old(c)),
    ensures
        *final(c) == config_with_entry(*old(c), category@, entry@),
        config_sourced_paths(*final(c)) == config_sourced_paths(*old(c)),
{
    c.add_entry(category, entry)
}

/// Relies on the `Display` impl of `HyprlandConfig`: the main file's lines,
/// joined by line breaks.
#[verifier::external_body]
pub(crate) fn render(c: &HyprlandConfig) -> (r: String)
    ensures
        r@ == join_lines(config_lines(*c)),
{
    c.to_string()
}

/// Relies on the public field `HyprlandConfig::sourced_paths`.
#[verifier::external_body]
pub(crate) fn sourced_paths(c: &HyprlandConfig) -> (r: Vec<String>)
    ensures
        views(r@) == config_sourced_paths(*c),
{
    c.sourced_paths.clone()
}

/// Relies on the public field `HyprlandConfig::content`: replaces the main
/// file's lines, and nothing else.
#[verifier::external_body]
pub(crate) fn set_main_lines(c: &mut HyprlandConfig, lines: Vec<String>)
    ensures
        config_lines(*final(c)) == views(lines@),
        config_sourced_paths(*final(c)) == config_sourced_paths(*old(c)),
{
    c.content = lines;
}

/// Relies on the public field `HyprlandConfig::content`.
#[verifier::external_body]
pub(crate) fn main_lines(c: &HyprlandConfig) -> (r: Vec<String>)
    ensures
        views(r@) == config_lines(*c),
{
    c.content.clone()
}

/// Relies on the public field `HyprlandConfig::sourced_content`.
#[verifier::external_body]
pub(crate) fn sourced_lines(c: &HyprlandConfig) -> (r: Vec<Vec<String>>)
    ensures
        r@.len() == config_sourced_lines(*c).len(),
        forall|i: int|
            0 <= i < r@.len() ==> views(#[trigger] r@[i]@) == config_sourced_lines(*c)[i],
{
    c.sourced_content.clone()
}

/// Parses the text of the main configuration file; the files it sources are
/// read from disk.
pub fn parse_config(text: &str) -> (r: HyprlandConfig)
    ensures
        config_lines(r) == lines_of(text@),
{
    parse(text)
}

/// The files that `config` sources, in order.
pub fn sourced_files(config: &HyprlandConfig) -> (r: Vec<String>)
    ensures
        views(r@) == config_sourced_paths(*config),
{
    sourced_paths(config)
}

} // verus!
