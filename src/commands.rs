//! The command lines of the external tools, exactly as each toolchain family
//! expects them.
use vstd::prelude::*;

use crate::text::views;
use crate::tools::Platform;

verus! {

/// The file, inside a library's extraction directory, that lists the symbols
/// to keep.
pub const SYMBOLS_LIST_FILE: &'static str = "symbols-list.txt";

/// The relocatable object that the link step writes inside the extraction
/// directory.
pub const PRELINKED_FILE: &'static str = "prelinked.o";

/// One run of an external tool.
pub struct Invocation {
    pub program: String,
    pub args: Vec<String>,
    /// The working directory; the caller's own when `None`.
    pub dir: Option<String>,
    /// Whether standard output and standard error are kept for inspection;
    /// otherwise they are connected to this process's own streams.
    pub capture: bool,
}

pub open spec fn symbol_list_args(platform: Platform, lib: Seq<char>) -> Seq<Seq<char>> {
    match platform {
        Platform::MachO => seq!["-jgUA"@, lib],
        Platform::Elf => seq!["-g"@, "--defined-only"@, "-A"@, "--format=just-symbols"@, lib],
    }
}

pub open spec fn extract_args(lib: Seq<char>) -> Seq<Seq<char>> {
    seq!["x"@, lib]
}

pub open spec fn link_args(platform: Platform, objects: Seq<Seq<char>>) -> Seq<Seq<char>> {
    match platform {
        Platform::MachO => seq!["-r"@, "-exported_symbols_list"@, "symbols-list.txt"@, "-o"@, "prelinked.o"@]
            + objects,
        Platform::Elf => seq!["-r"@, "--export-dynamic-symbol-list=symbols-list.txt"@, "-o"@, "prelinked.o"@]
            + objects,
    }
}

pub open spec fn hide_args() -> Seq<Seq<char>> {
    seq!["--keep-global-symbols=symbols-list.txt"@, "prelinked.o"@]
}

pub open spec fn archive_args(platform: Platform, output: Seq<char>, objects: Seq<Seq<char>>) -> Seq<Seq<char>> {
    match platform {
        Platform::MachO => seq!["-static"@, "-o"@, output] + objects,
        Platform::Elf => seq!["rs"@, output] + objects,
    }
}

/// Appends copies of `items` to `out`.
fn push_strings(out: &mut Vec<String>, items: &Vec<String>)
    ensures
        views(final(out)@) == views(old(out)@) + views(items@),
{
    let mut i: usize = 0;
    while i < items.len()
        invariant
            i <= items.len(),
            views(out@) == views(old(out)@) + views(items@).subrange(0, i as int),
        decreases items.len() - i,
    {
        let ghost before = views(out@);
        out.push(items[i].clone());
        proof {
            assert(views(out@) =~= before.push(items@[i as int]@));
        }
        i = i + 1;
        proof {
            assert(views(out@) =~= views(old(out)@) + views(items@).subrange(0, i as int));
        }
    }
    proof {
        assert(views(items@).subrange(0, items.len() as int) =~= views(items@));
    }
}

fn strings_of(items: &[&str]) -> (r: Vec<String>)
    ensures
        r@.len() == items@.len(),
        forall|i: int| 0 <= i < items@.len() ==> (#[trigger] r@[i])@ == items@[i]@,
{
    let mut r: Vec<String> = Vec::new();
    let mut i: usize = 0;
    while i < items.len()
        invariant
            i <= items.len(),
            r@.len() == i,
            forall|k: int| 0 <= k < i ==> (#[trigger] r@[k])@ == items@[k]@,
        decreases items.len() - i,
    {
        r.push(items[i].to_owned());
        i = i + 1;
    }
    r
}

/// Lists the symbols of the library at `lib`; its output is always kept, since
/// it is parsed.
pub fn list_symbols_invocation(platform: Platform, tool: &String, lib: &String) -> (r: Invocation)
    ensures
        r.program@ == tool@,
        views(r.args@) == symbol_list_args(platform, lib@),
        r.dir is None,
        r.capture,
{
    let args = match platform {
        Platform::MachO => strings_of(&["-jgUA", lib.as_str()]),
        Platform::Elf => strings_of(&["-g", "--defined-only", "-A", "--format=just-symbols", lib.as_str()]),
    };
    proof {
        assert(views(args@) =~= symbol_list_args(platform, lib@));
    }
    Invocation { program: tool.clone(), args, dir: None, capture: true }
}

/// Extracts the members of the library at `lib` into `dir`.
pub fn extract_invocation(tool: &String, lib: &String, dir: &String, verbose: bool) -> (r: Invocation)
    ensures
        r.program@ == tool@,
        views(r.args@) == extract_args(lib@),
        r.dir == Some(*dir),
        r.capture == !verbose,
{
    let args = strings_of(&["x", lib.as_str()]);
    proof {
        assert(views(args@) =~= extract_args(lib@));
    }
    Invocation { program: tool.clone(), args, dir: Some(dir.clone()), capture: !verbose }
}

/// Links the objects of an extraction directory into one relocatable object,
/// exporting only the listed symbols.
pub fn link_invocation(
    platform: Platform,
    tool: &String,
    dir: &String,
    objects: &Vec<String>,
    verbose: bool,
) -> (r: Invocation)
    ensures
        r.program@ == tool@,
        views(r.args@) == link_args(platform, views(objects@)),
        r.dir == Some(*dir),
        r.capture == !verbose,
{
    let mut args = match platform {
        Platform::MachO => strings_of(
            &["-r", "-exported_symbols_list", SYMBOLS_LIST_FILE, "-o", PRELINKED_FILE],
        ),
        Platform::Elf => strings_of(
            &["-r", "--export-dynamic-symbol-list=symbols-list.txt", "-o", PRELINKED_FILE],
        ),
    };
    let ghost head = views(args@);
    push_strings(&mut args, objects);
    proof {
        match platform {
            Platform::MachO => assert(head =~= seq!["-r"@, "-exported_symbols_list"@, "symbols-list.txt"@, "-o"@, "prelinked.o"@]),
            Platform::Elf => assert(head =~= seq!["-r"@, "--export-dynamic-symbol-list=symbols-list.txt"@, "-o"@, "prelinked.o"@]),
        }
    }
    Invocation { program: tool.clone(), args, dir: Some(dir.clone()), capture: !verbose }
}

/// Keeps only the listed symbols global in the linked object, in place.
pub fn hide_invocation(tool: &String, dir: &String, verbose: bool) -> (r: Invocation)
    ensures
        r.program@ == tool@,
        views(r.args@) == hide_args(),
        r.dir == Some(*dir),
        r.capture == !verbose,
{
    let args = strings_of(&["--keep-global-symbols=symbols-list.txt", PRELINKED_FILE]);
    proof {
        assert(views(args@) =~= hide_args());
    }
    Invocation { program: tool.clone(), args, dir: Some(dir.clone()), capture: !verbose }
}

/// Builds the archive at `output` from `objects`, which lie in `dir`.
pub fn archive_invocation(
    platform: Platform,
    tool: &String,
    dir: &String,
    output: &String,
    objects: &Vec<String>,
    verbose: bool,
) -> (r: Invocation)
    ensures
        r.program@ == tool@,
        views(r.args@) == archive_args(platform, output@, views(objects@)),
        r.dir == Some(*dir),
        r.capture == !verbose,
{
    let mut args = match platform {
        Platform::MachO => strings_of(&["-static", "-o", output.as_str()]),
        Platform::Elf => strings_of(&["rs", output.as_str()]),
    };
    let ghost head = views(args@);
    push_strings(&mut args, objects);
    proof {
        match platform {
            Platform::MachO => assert(head =~= seq!["-static"@, "-o"@, output@]),
            Platform::Elf => assert(head =~= seq!["rs"@, output@]),
        }
    }
    Invocation { program: tool.clone(), args, dir: Some(dir.clone()), capture: !verbose }
}

} // verus!
