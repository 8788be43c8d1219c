//! Symbol sets: reading the symbol-lister's output, reading a pattern file,
//! keeping the symbols that match a pattern, and the symbol-list file that the
//! link step reads.
use vstd::prelude::*;

use crate::text::{
    after_last, after_last_chars, char_views, chars_of, join, join_strings, lemma_split_join,
    split, split_chars, string_of, trim, trim_chars, views,
};

verus! {

/// Whether `name` matches the wildcard pattern `pattern`, as glob-match decides.
pub uninterp spec fn glob_matches(pattern: Seq<char>, name: Seq<char>) -> bool;

/// Relies on `glob_match::glob_match`: whether `name` matches `pattern`; the
/// answer depends on the two strings alone.
#[verifier::external_body]
fn glob_match(pattern: &str, name: &str) -> (r: bool)
    ensures
        r == glob_matches(pattern@, name@),
{
    glob_match::glob_match(pattern, name)
}

/// Whether `name` matches at least one of `patterns`.
pub open spec fn matches_any(patterns: Seq<Seq<char>>, name: Seq<char>) -> bool {
    exists|j: int| 0 <= j < patterns.len() && glob_matches(#[trigger] patterns[j], name)
}

/// The symbols that match at least one pattern, in their order, duplicates kept.
pub open spec fn retained(symbols: Seq<Seq<char>>, patterns: Seq<Seq<char>>) -> Seq<Seq<char>>
    decreases symbols.len(),
{
    if symbols.len() == 0 {
        Seq::empty()
    } else {
        let prev = retained(symbols.drop_last(), patterns);
        if matches_any(patterns, symbols.last()) {
            prev.push(symbols.last())
        } else {
            prev
        }
    }
}

/// The symbol named on one line of the lister's output: what follows the last
/// colon, trimmed.
pub open spec fn symbol_of_line(line: Seq<char>) -> Seq<char> {
    trim(after_last(line, ':'))
}

/// The non-empty symbols named on `lines`, in order.
pub open spec fn symbols_of_lines(lines: Seq<Seq<char>>) -> Seq<Seq<char>>
    decreases lines.len(),
{
    if lines.len() == 0 {
        Seq::empty()
    } else {
        let prev = symbols_of_lines(lines.drop_last());
        let s = symbol_of_line(lines.last());
        if s.len() > 0 {
            prev.push(s)
        } else {
            prev
        }
    }
}

/// The symbols named in the lister's output.
pub open spec fn symbols_in_output(text: Seq<char>) -> Seq<Seq<char>> {
    symbols_of_lines(split(text, '\n'))
}

/// Whether a trimmed line of a pattern file holds a pattern: it is not blank
/// and is no comment (a line that starts with `#`).
pub open spec fn is_pattern_line(t: Seq<char>) -> bool {
    t.len() > 0 && t[0] != '#'
}

/// The patterns on `lines`, trimmed, in order.
pub open spec fn patterns_of_lines(lines: Seq<Seq<char>>) -> Seq<Seq<char>>
    decreases lines.len(),
{
    if lines.len() == 0 {
        Seq::empty()
    } else {
        let prev = patterns_of_lines(lines.drop_last());
        let t = trim(lines.last());
        if is_pattern_line(t) {
            prev.push(t)
        } else {
            prev
        }
    }
}

/// The patterns in the text of a pattern file.
pub open spec fn patterns_in_file(text: Seq<char>) -> Seq<Seq<char>> {
    patterns_of_lines(split(text, '\n'))
}

/// Whether `name` matches one of `patterns`.
pub fn matches_any_pattern(patterns: &Vec<String>, name: &str) -> (r: bool)
    ensures
        r == matches_any(views(patterns@), name@),
{
    let mut j: usize = 0;
    while j < patterns.len()
        invariant
            j <= patterns.len(),
            forall|k: int| 0 <= k < j ==> !glob_matches(#[trigger] views(patterns@)[k], name@),
        decreases patterns.len() - j,
    {
        if glob_match(patterns[j].as_str(), name) {
            assert(glob_matches(views(patterns@)[j as int], name@));
            return true;
        }
        j = j + 1;
    }
    false
}

/// The symbols that match at least one of `patterns`, in order.
pub fn filter_symbols(symbols: &Vec<String>, patterns: &Vec<String>) -> (r: Vec<String>)
    ensures
        views(r@) == retained(views(symbols@), views(patterns@)),
{
    let mut r: Vec<String> = Vec::new();
    let mut i: usize = 0;
    while i < symbols.len()
        invariant
            i <= symbols.len(),
            views(r@) == retained(views(symbols@).subrange(0, i as int), views(patterns@)),
        decreases symbols.len() - i,
    {
        let ghost sub = views(symbols@).subrange(0, i + 1);
        proof {
            assert(sub.drop_last() =~= views(symbols@).subrange(0, i as int));
            assert(sub.last() == symbols@[i as int]@);
        }
        if matches_any_pattern(patterns, symbols[i].as_str()) {
            r.push(symbols[i].clone());
            proof {
                assert(views(r@) =~= retained(sub.drop_last(), views(patterns@)).push(sub.last()));
            }
        }
        i = i + 1;
    }
    proof {
        assert(views(symbols@).subrange(0, symbols.len() as int) =~= views(symbols@));
    }
    r
}

/// The symbols named in the symbol-lister's output `text`: on each line the
/// text after the last colon, trimmed; lines that leave nothing are skipped.
pub fn read_symbols(text: &str) -> (r: Vec<String>)
    ensures
        views(r@) == symbols_in_output(text@),
{
    let chars = chars_of(text);
    let lines = split_chars(&chars, '\n');
    let mut r: Vec<String> = Vec::new();
    let mut i: usize = 0;
    while i < lines.len()
        invariant
            i <= lines.len(),
            char_views(lines@) == split(text@, '\n'),
            views(r@) == symbols_of_lines(char_views(lines@).subrange(0, i as int)),
        decreases lines.len() - i,
    {
        let ghost sub = char_views(lines@).subrange(0, i + 1);
        proof {
            assert(sub.drop_last() =~= char_views(lines@).subrange(0, i as int));
            assert(sub.last() == lines@[i as int]@);
        }
        let tail = after_last_chars(&lines[i], ':');
        let sym = trim_chars(&tail);
        if sym.len() > 0 {
            let s = string_of(sym.as_slice());
            r.push(s);
            proof {
                assert(views(r@) =~= symbols_of_lines(sub.drop_last()).push(symbol_of_line(sub.last())));
            }
        }
        i = i + 1;
    }
    proof {
        assert(char_views(lines@).subrange(0, lines.len() as int) =~= char_views(lines@));
    }
    r
}

/// The patterns in the text of a pattern file: each line trimmed; blank lines
/// and comment lines (starting with `#`) skipped.
pub fn parse_pattern_list(text: &str) -> (r: Vec<String>)
    ensures
        views(r@) == patterns_in_file(text@),
{
    let chars = chars_of(text);
    let lines = split_chars(&chars, '\n');
    let mut r: Vec<String> = Vec::new();
    let mut i: usize = 0;
    while i < lines.len()
        invariant
            i <= lines.len(),
            char_views(lines@) == split(text@, '\n'),
            views(r@) == patterns_of_lines(char_views(lines@).subrange(0, i as int)),
        decreases lines.len() - i,
    {
        let ghost sub = char_views(lines@).subrange(0, i + 1);
        proof {
            assert(sub.drop_last() =~= char_views(lines@).subrange(0, i as int));
            assert(sub.last() == lines@[i as int]@);
        }
        let t = trim_chars(&lines[i]);
        if t.len() > 0 && t[0] != '#' {
            let s = string_of(t.as_slice());
            r.push(s);
            proof {
                assert(views(r@) =~= patterns_of_lines(sub.drop_last()).push(trim(sub.last())));
            }
        }
        i = i + 1;
    }
    proof {
        assert(char_views(lines@).subrange(0, lines.len() as int) =~= char_views(lines@));
    }
    r
}

/// The text of the symbol-list file: the symbols joined by newlines, with no
/// newline after the last.
pub fn symbol_list_text(symbols: &Vec<String>) -> (r: String)
    ensures
        r@ == join(views(symbols@), '\n'),
{
    join_strings(symbols, '\n')
}

/// The lines of a symbol-list file, as the link step reads them.
pub fn read_symbol_list(text: &str) -> (r: Vec<String>)
    ensures
        views(r@) == split(text@, '\n'),
{
    let chars = chars_of(text);
    let lines = split_chars(&chars, '\n');
    let mut r: Vec<String> = Vec::new();
    let mut i: usize = 0;
    while i < lines.len()
        invariant
            i <= lines.len(),
            char_views(lines@) == split(text@, '\n'),
            views(r@) == char_views(lines@).subrange(0, i as int),
        decreases lines.len() - i,
    {
        let ghost prev = views(r@);
        let s = string_of(lines[i].as_slice());
        r.push(s);
        proof {
            assert(views(r@) =~= prev.push(lines@[i as int]@));
            assert(char_views(lines@).subrange(0, i + 1) =~= char_views(lines@).subrange(
                0,
                i as int,
            ).push(lines@[i as int]@));
        }
        i = i + 1;
    }
    proof {
        assert(char_views(lines@).subrange(0, lines.len() as int) =~= char_views(lines@));
    }
    r
}

/// A symbol is kept exactly when it is among the symbols and matches at least
/// one pattern.
pub proof fn lemma_retained_iff(symbols: Seq<Seq<char>>, patterns: Seq<Seq<char>>, s: Seq<char>)
    ensures
        retained(symbols, patterns).contains(s) <==> (symbols.contains(s) && matches_any(
            patterns,
            s,
        )),
    decreases symbols.len(),
{
    if symbols.len() > 0 {
        let init = symbols.drop_last();
        lemma_retained_iff(init, patterns, s);
        let prev = retained(init, patterns);
        if symbols.contains(s) && s != symbols.last() {
            let k = choose|k: int| 0 <= k < symbols.len() && symbols[k] == s;
            assert(k < symbols.len() - 1);
            assert(init[k] == s);
        }
        if init.contains(s) {
            let k = choose|k: int| 0 <= k < init.len() && init[k] == s;
            assert(symbols[k] == s);
        }
        assert(symbols[symbols.len() - 1] == symbols.last());
        if matches_any(patterns, symbols.last()) {
            assert(prev.push(symbols.last())[prev.len() as int] == symbols.last());
            if prev.contains(s) {
                let k = choose|k: int| 0 <= k < prev.len() && prev[k] == s;
                assert(prev.push(symbols.last())[k] == s);
            }
            if prev.push(symbols.last()).contains(s) && s != symbols.last() {
                let k = choose|k: int| 0 <= k < prev.len() + 1 && prev.push(symbols.last())[k] == s;
                assert(prev[k] == s);
            }
        }
    }
}

/// Writing a non-empty list of symbols, none holding a newline, to the
/// symbol-list file and reading the file back gives the same symbols in the
/// same order, duplicates included.
pub proof fn lemma_symbol_list_round_trip(symbols: Seq<Seq<char>>)
    requires
        symbols.len() > 0,
        forall|i: int| 0 <= i < symbols.len() ==> !(#[trigger] symbols[i]).contains('\n'),
    ensures
        split(join(symbols, '\n'), '\n') == symbols,
{
    lemma_split_join(symbols, '\n');
}

} // verus!
