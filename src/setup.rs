//! From the command-line options to a started run: tools resolved, pattern
//! file loaded, configuration fixed.
use vstd::prelude::*;

use crate::pipeline::{root, Action, Config, Phase, Pipeline};
use crate::symbols::{parse_pattern_list, patterns_in_file};
use crate::text::views;
use crate::tools::{
    all_tools_found, find_all_tool_from_env, first_missing, names_missing_tool, opt_view,
    resolution, role_slot, same_but_tools, tool_name_spec, Candidate, CliOptions, Platform,
    PrelinkError, ToolRole,
};

verus! {

/// The output path used when none is given.
pub const DEFAULT_OUTPUT: &'static str = "soplink-out.a";

/// Appends the patterns of a pattern file's text to the options' patterns.
pub fn load_symbol_list(options: &mut CliOptions, contents: &str)
    ensures
        views(final(options).symbols@) == views(old(options).symbols@) + patterns_in_file(contents@),
        final(options).files == old(options).files,
        final(options).output == old(options).output,
        final(options).symbol_lists == old(options).symbol_lists,
        final(options).symbol_provider_tool == old(options).symbol_provider_tool,
        final(options).linker_tool == old(options).linker_tool,
        final(options).archiver_tool == old(options).archiver_tool,
        final(options).generator_tool == old(options).generator_tool,
        final(options).force == old(options).force,
        final(options).verbose == old(options).verbose,
{
    let patterns = parse_pattern_list(contents);
    let mut i: usize = 0;
    while i < patterns.len()
        invariant
            i <= patterns.len(),
            views(patterns@) == patterns_in_file(contents@),
            views(options.symbols@) == views(old(options).symbols@) + views(patterns@).subrange(0, i as int),
            options.files == old(options).files,
            options.output == old(options).output,
            options.symbol_lists == old(options).symbol_lists,
            options.symbol_provider_tool == old(options).symbol_provider_tool,
            options.linker_tool == old(options).linker_tool,
            options.archiver_tool == old(options).archiver_tool,
            options.generator_tool == old(options).generator_tool,
            options.force == old(options).force,
            options.verbose == old(options).verbose,
        decreases patterns.len() - i,
    {
        let ghost before = views(options.symbols@);
        options.symbols.push(patterns[i].clone());
        proof {
            assert(views(options.symbols@) =~= before.push(patterns@[i as int]@));
        }
        i = i + 1;
        proof {
            assert(views(options.symbols@) =~= views(old(options).symbols@) + views(patterns@).subrange(0, i as int));
        }
    }
    proof {
        assert(views(patterns@).subrange(0, patterns.len() as int) =~= views(patterns@));
    }
}

/// The output path given, or the default one.
pub fn output_path(options: &CliOptions) -> (r: String)
    ensures
        r@ == match options.output {
            Some(o) => o@,
            None => DEFAULT_OUTPUT@,
        },
{
    match &options.output {
        Some(o) => o.clone(),
        None => DEFAULT_OUTPUT.to_owned(),
    }
}

fn slot_value(slot: &Option<String>) -> (r: String)
    requires
        slot is Some,
    ensures
        r@ == slot->0@,
{
    match slot {
        Some(p) => p.clone(),
        None => String::new(),
    }
}

/// Whether `c` is the configuration of a run over `options`, writing to
/// `output`, with the tools that `options` names.
pub open spec fn configured(c: Config, options: CliOptions, platform: Platform, output: Seq<char>) -> bool {
    &&& c.platform == platform
    &&& views(c.libraries@) == views(options.files@)
    &&& views(c.patterns@) == views(options.symbols@)
    &&& c.output@ == output
    &&& opt_view(options.symbol_provider_tool) == Some(c.symbol_lister@)
    &&& opt_view(options.linker_tool) == Some(c.linker@)
    &&& opt_view(options.archiver_tool) == Some(c.archiver@)
    &&& opt_view(options.generator_tool) == Some(c.generator@)
    &&& c.force == options.force
    &&& c.verbose == options.verbose
}

fn copy_strings(v: &Vec<String>) -> (r: Vec<String>)
    ensures
        views(r@) == views(v@),
{
    let mut r: Vec<String> = Vec::new();
    let mut i: usize = 0;
    while i < v.len()
        invariant
            i <= v.len(),
            views(r@) == views(v@).subrange(0, i as int),
        decreases v.len() - i,
    {
        let ghost before = views(r@);
        r.push(v[i].clone());
        proof {
            assert(views(r@) =~= before.push(v@[i as int]@));
            assert(views(v@).subrange(0, i + 1) =~= views(v@).subrange(0, i as int).push(v@[i as int]@));
        }
        i = i + 1;
    }
    proof {
        assert(views(v@).subrange(0, v.len() as int) =~= views(v@));
    }
    r
}

/// Prepares and starts a run: finds the tools that have no override, adds the
/// patterns of the pattern file's text `list` (when a file was given), and
/// starts the run with its first action, creating the workspace. A tool that
/// cannot be found fails the call, naming the tool, before any action.
pub fn begin_run(
    options: &mut CliOptions,
    platform: Platform,
    candidates: &Vec<Candidate>,
    list: Option<&str>,
    output: &String,
) -> (r: Result<(Pipeline, Action), PrelinkError>)
    requires
        old(options).files@.len() > 0,
    ensures
        r is Err <==> !all_tools_found(*old(options), platform, candidates@),
        r matches Err(e) ==> names_missing_tool(
            e,
            tool_name_spec(platform, first_missing(*old(options), platform, candidates@)),
        ),
        r matches Ok((p, a)) ==> {
            &&& p.wf()
            &&& p.phase == Phase::CreatingWorkspace
            &&& configured(p.config, *final(options), platform, output@)
            &&& a matches Action::CreateWorkspace { root: w } && w@ == root()
            &&& views(final(options).symbols@) == views(old(options).symbols@) + match list {
                Some(t) => patterns_in_file(t@),
                None => Seq::empty(),
            }
            &&& forall|role: ToolRole|
                opt_view(#[trigger] role_slot(*final(options), role)) == resolution(
                    *old(options),
                    platform,
                    candidates@,
                    role,
                )
        },
{
    match find_all_tool_from_env(options, platform, candidates) {
        Ok(()) => {},
        Err(e) => return Err(e),
    }
    let ghost found = *options;
    match list {
        Some(t) => load_symbol_list(options, t),
        None => {},
    }
    proof {
        assert(role_slot(*options, ToolRole::Linker) == role_slot(found, ToolRole::Linker));
        assert(role_slot(*options, ToolRole::Archiver) == role_slot(found, ToolRole::Archiver));
        assert(role_slot(*options, ToolRole::Generator) == role_slot(found, ToolRole::Generator));
        assert(role_slot(*options, ToolRole::SymbolLister) == role_slot(found, ToolRole::SymbolLister));
        if list is None {
            assert(views(options.symbols@) =~= views(old(options).symbols@) + Seq::empty());
        }
    }
    let config = Config {
        platform,
        libraries: copy_strings(&options.files),
        patterns: copy_strings(&options.symbols),
        output: output.clone(),
        symbol_lister: slot_value(&options.symbol_provider_tool),
        linker: slot_value(&options.linker_tool),
        archiver: slot_value(&options.archiver_tool),
        generator: slot_value(&options.generator_tool),
        force: options.force,
        verbose: options.verbose,
    };
    proof {
        assert(views(config.libraries@).len() == views(options.files@).len());
    }
    Ok(Pipeline::start(config))
}

} // verus!
