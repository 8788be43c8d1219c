//! Diagnostics: text set under a prefix, its continuation lines indented to
//! line up with the first.
use vstd::prelude::*;

use crate::names::concat;
use crate::text::{chars_of, push_all, split, split_chars, string_of};

verus! {

/// `n` spaces.
pub open spec fn spaces(n: nat) -> Seq<char> {
    Seq::new(n, |i: int| ' ')
}

/// The lines of `lines`, the first after `head` and each later one after
/// `indent`, each ending in a newline.
pub open spec fn rendered(lines: Seq<Seq<char>>, head: Seq<char>, indent: Seq<char>) -> Seq<char>
    decreases lines.len(),
{
    if lines.len() == 0 {
        Seq::empty()
    } else {
        rendered(lines.drop_last(), head, indent) + (if lines.len() == 1 {
            head
        } else {
            indent
        }) + lines.last() + seq!['\n']
    }
}

/// `value` under `prefix`: the first line after `prefix: `, each later line
/// after as many spaces as that takes bytes.
pub open spec fn with_prefix(prefix: Seq<char>, prefix_bytes: nat, value: Seq<char>) -> Seq<char> {
    rendered(split(value, '\n'), prefix + ": "@, spaces(prefix_bytes + 2))
}

/// Writes `value` to `writer` under `prefix`, as `prefix: first line`, with
/// every further line indented to line up with the first.
pub fn print_with_prefix(writer: &mut String, prefix: &str, value: &str)
    ensures
        final(writer)@ == old(writer)@ + with_prefix(prefix@, prefix.len() as nat, value@),
{
    let mut head = chars_of(prefix);
    head.push(':');
    head.push(' ');
    let mut indent: Vec<char> = Vec::new();
    let width = prefix.len();
    let mut k: usize = 0;
    while k < width
        invariant
            k <= width,
            indent@ == spaces(k as nat),
        decreases width - k,
    {
        indent.push(' ');
        k = k + 1;
        proof {
            assert(indent@ =~= spaces(k as nat));
        }
    }
    indent.push(' ');
    indent.push(' ');
    proof {
        assert(indent@ =~= spaces(width as nat + 2));
        reveal_strlit(": ");
        assert(head@ =~= prefix@ + ": "@);
    }
    let v = chars_of(value);
    let lines = split_chars(&v, '\n');
    let mut out: Vec<char> = Vec::new();
    let mut i: usize = 0;
    while i < lines.len()
        invariant
            i <= lines.len(),
            lines@.map_values(|x: Vec<char>| x@) == split(value@, '\n'),
            out@ == rendered(split(value@, '\n').subrange(0, i as int), head@, indent@),
        decreases lines.len() - i,
    {
        let ghost sub = split(value@, '\n').subrange(0, i + 1);
        proof {
            assert(sub.drop_last() =~= split(value@, '\n').subrange(0, i as int));
            assert(sub.last() == lines@[i as int]@);
        }
        if i == 0 {
            push_all(&mut out, head.as_slice());
        } else {
            push_all(&mut out, indent.as_slice());
        }
        push_all(&mut out, lines[i].as_slice());
        out.push('\n');
        proof {
            assert(out@ =~= rendered(sub, head@, indent@));
        }
        i = i + 1;
    }
    proof {
        assert(split(value@, '\n').subrange(0, lines.len() as int) =~= split(value@, '\n'));
    }
    let text = string_of(out.as_slice());
    *writer = concat(writer.as_str(), text.as_str());
}

} // verus!
