//! The run's options, the host's toolchain family, and finding the four
//! external tools.
use vstd::prelude::*;

use crate::text::same_text;

verus! {

/// The options of one run, as given on the command line.
pub struct CliOptions {
    /// The static libraries to combine, in order.
    pub files: Vec<String>,
    /// Where to write the combined library.
    pub output: Option<String>,
    /// Wildcard patterns of the symbols to keep visible.
    pub symbols: Vec<String>,
    /// A file of further patterns, one per line.
    pub symbol_lists: Option<String>,
    pub symbol_provider_tool: Option<String>,
    pub linker_tool: Option<String>,
    pub archiver_tool: Option<String>,
    pub generator_tool: Option<String>,
    /// Go on when a tool exits with a failure status.
    pub force: bool,
    /// Connect the tools' output streams to this process's own.
    pub verbose: bool,
}

/// The two toolchain families that the run knows how to drive.
#[derive(Clone, Copy, PartialEq, Eq, Structural, Debug)]
pub enum Platform {
    /// Mach-O tools: `nm`, `ld`, `ar`, `libtool`.
    MachO,
    /// ELF tools: `nm`, `ld`, `ar`, `objcopy`.
    Elf,
}

/// The four external tools.
#[derive(Clone, Copy, PartialEq, Eq, Structural, Debug)]
pub enum ToolRole {
    SymbolLister,
    Linker,
    Archiver,
    /// `libtool` on Mach-O, which builds the archive; `objcopy` on ELF,
    /// which hides symbols.
    Generator,
}

/// Why a run stops.
#[derive(Debug)]
pub enum PrelinkError {
    /// No override was given and no directory of the search path holds the tool.
    ToolNotFound { tool: String },
    /// A tool exited with a failure status; what it wrote to standard error.
    ToolInvocationFailed { stderr: String },
    /// A tool reported success but the file it should have made is not there.
    OutputArtifactMissing { path: String },
    /// Creating, removing, renaming or writing in the workspace failed.
    FilesystemError { message: String },
}

/// The file name that each tool is looked up by.
pub open spec fn tool_name_spec(platform: Platform, role: ToolRole) -> Seq<char> {
    match role {
        ToolRole::SymbolLister => "nm"@,
        ToolRole::Linker => "ld"@,
        ToolRole::Archiver => "ar"@,
        ToolRole::Generator => match platform {
            Platform::MachO => "libtool"@,
            Platform::Elf => "objcopy"@,
        },
    }
}

pub fn tool_name(platform: Platform, role: ToolRole) -> (r: &'static str)
    ensures
        r@ == tool_name_spec(platform, role),
{
    match role {
        ToolRole::SymbolLister => "nm",
        ToolRole::Linker => "ld",
        ToolRole::Archiver => "ar",
        ToolRole::Generator => match platform {
            Platform::MachO => "libtool",
            Platform::Elf => "objcopy",
        },
    }
}

/// One place where a tool could be: `path` is the directory of the search
/// path joined with the file name `name`, and `is_file` tells whether a file
/// is there. Candidates come in the order of the search path.
pub struct Candidate {
    pub name: String,
    pub path: String,
    pub is_file: bool,
}

/// The path of the first candidate for `name` that is a file.
pub open spec fn first_found(candidates: Seq<Candidate>, name: Seq<char>) -> Option<Seq<char>>
    decreases candidates.len(),
{
    if candidates.len() == 0 {
        None
    } else if candidates[0].name@ == name && candidates[0].is_file {
        Some(candidates[0].path@)
    } else {
        first_found(candidates.drop_first(), name)
    }
}

/// The path that a tool slot ends with: the override, or else what the search
/// path gives.
pub open spec fn resolved_tool(
    given: Option<String>,
    candidates: Seq<Candidate>,
    name: Seq<char>,
) -> Option<Seq<char>> {
    match given {
        Some(p) => Some(p@),
        None => first_found(candidates, name),
    }
}

/// Whether `e` reports that the tool named `name` was not found.
pub open spec fn names_missing_tool(e: PrelinkError, name: Seq<char>) -> bool {
    match e {
        PrelinkError::ToolNotFound { tool } => tool@ == name,
        _ => false,
    }
}

pub open spec fn opt_view(o: Option<String>) -> Option<Seq<char>> {
    match o {
        Some(p) => Some(p@),
        None => None,
    }
}

/// The path of the first candidate named `name` that is a file, or
/// `ToolNotFound` naming it.
pub fn find_tool_from_env(candidates: &Vec<Candidate>, name: &str) -> (r: Result<String, PrelinkError>)
    ensures
        match r {
            Ok(p) => first_found(candidates@, name@) == Some(p@),
            Err(e) => first_found(candidates@, name@) is None && names_missing_tool(e, name@),
        },
{
    let mut i: usize = 0;
    proof {
        assert(candidates@.subrange(0, candidates.len() as int) =~= candidates@);
    }
    while i < candidates.len()
        invariant
            i <= candidates.len(),
            first_found(candidates@, name@) == first_found(candidates@.subrange(i as int, candidates.len() as int), name@),
        decreases candidates.len() - i,
    {
        let ghost rest = candidates@.subrange(i as int, candidates.len() as int);
        proof {
            assert(rest.drop_first() =~= candidates@.subrange(i + 1, candidates.len() as int));
            assert(rest[0] == candidates@[i as int]);
        }
        let c = &candidates[i];
        if c.is_file && same_text(c.name.as_str(), name) {
            return Ok(c.path.clone());
        }
        i = i + 1;
    }
    Err(PrelinkError::ToolNotFound { tool: name.to_owned() })
}

/// Fills an empty tool slot from the search path; a given path is kept.
fn fill_tool(slot: &mut Option<String>, candidates: &Vec<Candidate>, name: &str) -> (r: Result<(), PrelinkError>)
    ensures
        match r {
            Ok(()) => resolved_tool(*old(slot), candidates@, name@) is Some
                && opt_view(*final(slot)) == resolved_tool(*old(slot), candidates@, name@),
            Err(e) => resolved_tool(*old(slot), candidates@, name@) is None
                && names_missing_tool(e, name@),
        },
{
    if slot.is_some() {
        return Ok(());
    }
    match find_tool_from_env(candidates, name) {
        Ok(p) => {
            *slot = Some(p);
            Ok(())
        },
        Err(e) => Err(e),
    }
}

/// The slot of `options` that holds the path of the tool in `role`.
pub open spec fn role_slot(options: CliOptions, role: ToolRole) -> Option<String> {
    match role {
        ToolRole::SymbolLister => options.symbol_provider_tool,
        ToolRole::Linker => options.linker_tool,
        ToolRole::Archiver => options.archiver_tool,
        ToolRole::Generator => options.generator_tool,
    }
}

/// The path that the tool in `role` resolves to, if any.
pub open spec fn resolution(
    options: CliOptions,
    platform: Platform,
    candidates: Seq<Candidate>,
    role: ToolRole,
) -> Option<Seq<char>> {
    resolved_tool(role_slot(options, role), candidates, tool_name_spec(platform, role))
}

/// Whether every tool resolves, by override or by the search path.
pub open spec fn all_tools_found(options: CliOptions, platform: Platform, candidates: Seq<Candidate>) -> bool {
    &&& resolution(options, platform, candidates, ToolRole::Linker) is Some
    &&& resolution(options, platform, candidates, ToolRole::Archiver) is Some
    &&& resolution(options, platform, candidates, ToolRole::Generator) is Some
    &&& resolution(options, platform, candidates, ToolRole::SymbolLister) is Some
}

/// The tool that is reported missing: the first that does not resolve, in the
/// order linker, archiver, generator, symbol lister.
pub open spec fn first_missing(options: CliOptions, platform: Platform, candidates: Seq<Candidate>) -> ToolRole {
    if resolution(options, platform, candidates, ToolRole::Linker) is None {
        ToolRole::Linker
    } else if resolution(options, platform, candidates, ToolRole::Archiver) is None {
        ToolRole::Archiver
    } else if resolution(options, platform, candidates, ToolRole::Generator) is None {
        ToolRole::Generator
    } else {
        ToolRole::SymbolLister
    }
}

/// Whether `after` differs from `before` at most in its four tool slots.
pub open spec fn same_but_tools(after: CliOptions, before: CliOptions) -> bool {
    &&& after.files == before.files
    &&& after.output == before.output
    &&& after.symbols == before.symbols
    &&& after.symbol_lists == before.symbol_lists
    &&& after.force == before.force
    &&& after.verbose == before.verbose
}

/// Fills each tool slot that has no override with the first file of that
/// tool's name on the search path. Fails with `ToolNotFound`, naming the tool,
/// when one of them can be found neither way.
pub fn find_all_tool_from_env(
    options: &mut CliOptions,
    platform: Platform,
    candidates: &Vec<Candidate>,
) -> (r: Result<(), PrelinkError>)
    ensures
        same_but_tools(*final(options), *old(options)),
        r is Ok <==> all_tools_found(*old(options), platform, candidates@),
        r is Ok ==> forall|role: ToolRole|
            opt_view(#[trigger] role_slot(*final(options), role)) == resolution(*old(options), platform, candidates@, role),
        r matches Err(e) ==> names_missing_tool(
            e,
            tool_name_spec(platform, first_missing(*old(options), platform, candidates@)),
        ),
{
    match fill_tool(&mut options.linker_tool, candidates, tool_name(platform, ToolRole::Linker)) {
        Ok(()) => {},
        Err(e) => return Err(e),
    }
    match fill_tool(&mut options.archiver_tool, candidates, tool_name(platform, ToolRole::Archiver)) {
        Ok(()) => {},
        Err(e) => return Err(e),
    }
    match fill_tool(&mut options.generator_tool, candidates, tool_name(platform, ToolRole::Generator)) {
        Ok(()) => {},
        Err(e) => return Err(e),
    }
    match fill_tool(
        &mut options.symbol_provider_tool,
        candidates,
        tool_name(platform, ToolRole::SymbolLister),
    ) {
        Ok(()) => {},
        Err(e) => return Err(e),
    }
    proof {
        assert forall|role: ToolRole|
            opt_view(#[trigger] role_slot(*options, role)) == resolution(*old(options), platform, candidates@, role) by {
            match role {
                ToolRole::SymbolLister => {},
                ToolRole::Linker => {},
                ToolRole::Archiver => {},
                ToolRole::Generator => {},
            }
        }
    }
    Ok(())
}

} // verus!
