//! The prelink run as a step machine. The machine decides; its driver performs
//! each action (runs a tool, touches the workspace) and hands back what came of
//! it. One run resolves the symbols of every library, then extracts, links and
//! moves each library's prelinked object into the workspace root, then builds
//! the output archive from those objects and removes the workspace.
use vstd::prelude::*;

use crate::commands::{
    archive_args, archive_invocation, extract_args, extract_invocation, hide_args,
    hide_invocation, link_args, link_invocation, list_symbols_invocation, symbol_list_args,
    Invocation, PRELINKED_FILE, SYMBOLS_LIST_FILE,
};
use crate::names::{
    concat, file_name, file_name_of, lemma_work_names_distinct, path_join, work_name, work_name_of,
    TEMP_ROOT,
};
use crate::symbols::{filter_symbols, read_symbols, retained, symbol_list_text, symbols_in_output};
use crate::text::{join, views};
use crate::tools::{Platform, PrelinkError};

verus! {

/// What a run works from, fixed before it starts.
pub struct Config {
    pub platform: Platform,
    /// The input libraries, in order.
    pub libraries: Vec<String>,
    /// The wildcard patterns of the symbols to keep.
    pub patterns: Vec<String>,
    /// The absolute path of the archive to build.
    pub output: String,
    pub symbol_lister: String,
    pub linker: String,
    pub archiver: String,
    pub generator: String,
    /// Go on when a tool exits with a failure status.
    pub force: bool,
    /// Connect the tools' output streams to this process's own.
    pub verbose: bool,
}

/// One input library with its kept symbols.
pub struct StaticLib {
    pub path: String,
    /// The final component of `path`.
    pub name: String,
    pub symbols: Vec<String>,
}

/// Where a run stands: what it waits for, and for which library.
#[derive(Clone, Copy, PartialEq, Eq, Structural, Debug)]
pub enum Phase {
    CreatingWorkspace,
    Resolving(usize),
    MakingDir(usize),
    Extracting(usize),
    WritingList(usize),
    ListingObjects(usize),
    Linking(usize),
    CheckingLinked(usize),
    Hiding(usize),
    Moving(usize),
    ListingFinal,
    Archiving,
    CheckingOutput,
    Releasing,
    Finished,
}

/// What the driver is asked to do next.
pub enum Action {
    /// Remove any tree left at `root`, then create `root` afresh.
    CreateWorkspace { root: String },
    /// Run a tool and report how it exited.
    Run(Invocation),
    /// Remove any directory left at `path`, then create it afresh.
    CreateDir { path: String },
    WriteFile { path: String, contents: String },
    /// Report the names of the entries of a directory.
    ListDir { path: String },
    /// Report whether a file exists.
    CheckFile { path: String },
    Rename { from: String, to: String },
    /// Remove the workspace tree.
    RemoveWorkspace { root: String },
    /// The run is over, with this outcome.
    Stop(Result<(), PrelinkError>),
}

/// What came of the last action.
pub enum Event {
    /// A workspace action succeeded.
    Done,
    /// An action failed at the level of the file system or of process creation.
    Failed { message: String },
    /// A tool ran to its end.
    Exited { success: bool, stdout: String, stderr: String },
    /// The entries of the listed directory.
    Listed { names: Vec<String> },
    /// Whether the checked file exists.
    Checked { exists: bool },
}

pub struct Pipeline {
    pub config: Config,
    /// The libraries resolved so far.
    pub libs: Vec<StaticLib>,
    pub phase: Phase,
}

/// The glob that selects object files.
pub open spec fn object_glob() -> Seq<char> {
    "*.o"@
}

/// The object files among the names of a directory's entries.
pub open spec fn object_files(names: Seq<Seq<char>>) -> Seq<Seq<char>> {
    retained(names, seq![object_glob()])
}

pub open spec fn root() -> Seq<char> {
    TEMP_ROOT@
}

/// The extraction directory of a library with file name `name` at `index`.
pub open spec fn work_dir(index: nat, name: Seq<char>) -> Seq<char> {
    root() + seq!['/'] + work_name(index, name)
}

/// Where that library's prelinked object ends up, in the workspace root.
pub open spec fn prelinked_dest(index: nat, name: Seq<char>) -> Seq<char> {
    root() + seq!['/'] + work_name(index, name) + ".prelink.o"@
}

pub open spec fn in_dir(dir: Seq<char>, file: Seq<char>) -> Seq<char> {
    dir + seq!['/'] + file
}

impl Pipeline {
    pub open spec fn count(&self) -> nat {
        self.config.libraries@.len()
    }

    pub open spec fn dir_of(&self, i: int) -> Seq<char> {
        work_dir(i as nat, self.libs@[i].name@)
    }

    pub open spec fn dest_of(&self, i: int) -> Seq<char> {
        prelinked_dest(i as nat, self.libs@[i].name@)
    }

    /// How far the run has come agrees with the libraries resolved so far.
    pub open spec fn wf(&self) -> bool {
        &&& self.count() > 0
        &&& match self.phase {
            Phase::CreatingWorkspace => self.libs@.len() == 0,
            Phase::Resolving(i) => i < self.count() && self.libs@.len() == i,
            Phase::MakingDir(i) | Phase::Extracting(i) | Phase::WritingList(i)
            | Phase::ListingObjects(i) | Phase::Linking(i) | Phase::CheckingLinked(i)
            | Phase::Hiding(i) | Phase::Moving(i) => i < self.count() && self.libs@.len()
                == self.count(),
            Phase::Finished => self.libs@.len() <= self.count(),
            _ => self.libs@.len() == self.count(),
        }
    }

    /// Whether `e` is an answer to the action that the run waits on.
    pub open spec fn expects_spec(&self, e: Event) -> bool {
        match self.phase {
            Phase::Finished => false,
            Phase::CreatingWorkspace | Phase::MakingDir(_) | Phase::WritingList(_)
            | Phase::Moving(_) | Phase::Releasing => e is Done || e is Failed,
            Phase::Resolving(_) | Phase::Extracting(_) | Phase::Linking(_) | Phase::Hiding(_)
            | Phase::Archiving => e is Exited || e is Failed,
            Phase::ListingObjects(_) | Phase::ListingFinal => e is Listed || e is Failed,
            Phase::CheckingLinked(_) | Phase::CheckingOutput => e is Checked || e is Failed,
        }
    }
}

/// Whether `a` runs the symbol lister on the `i`-th library.
pub open spec fn lists_symbols(a: Action, c: Config, i: int) -> bool {
    match a {
        Action::Run(inv) => inv.program@ == c.symbol_lister@ && views(inv.args@)
            == symbol_list_args(c.platform, c.libraries@[i]@) && inv.dir is None && inv.capture,
        _ => false,
    }
}

/// Whether `a` runs `program` with `args` in `dir`, its output kept unless the
/// run is verbose.
pub open spec fn runs(a: Action, c: Config, program: Seq<char>, args: Seq<Seq<char>>, dir: Seq<char>) -> bool {
    match a {
        Action::Run(inv) => inv.program@ == program && views(inv.args@) == args && inv.dir
            is Some && inv.dir->0@ == dir && inv.capture == !c.verbose,
        _ => false,
    }
}

pub open spec fn creates_dir(a: Action, path: Seq<char>) -> bool {
    match a {
        Action::CreateDir { path: p } => p@ == path,
        _ => false,
    }
}

pub open spec fn lists_dir(a: Action, path: Seq<char>) -> bool {
    match a {
        Action::ListDir { path: p } => p@ == path,
        _ => false,
    }
}

pub open spec fn checks_file(a: Action, path: Seq<char>) -> bool {
    match a {
        Action::CheckFile { path: p } => p@ == path,
        _ => false,
    }
}

pub open spec fn writes_file(a: Action, path: Seq<char>, contents: Seq<char>) -> bool {
    match a {
        Action::WriteFile { path: p, contents: x } => p@ == path && x@ == contents,
        _ => false,
    }
}

pub open spec fn renames(a: Action, from: Seq<char>, to: Seq<char>) -> bool {
    match a {
        Action::Rename { from: f, to: t } => f@ == from && t@ == to,
        _ => false,
    }
}

pub open spec fn removes_workspace(a: Action) -> bool {
    match a {
        Action::RemoveWorkspace { root: r } => r@ == root(),
        _ => false,
    }
}

/// Whether `a` stops the run with an error.
pub open spec fn fails_with(a: Action, e: PrelinkError) -> bool {
    a == Action::Stop(Err(e))
}

/// Whether `a` stops the run reporting that the file at `path` is missing.
pub open spec fn reports_missing(a: Action, path: Seq<char>) -> bool {
    match a {
        Action::Stop(Err(PrelinkError::OutputArtifactMissing { path: p })) => p@ == path,
        _ => false,
    }
}

/// Whether a tool's exit stops the run: it failed and the run is not forced.
pub open spec fn halts_on(e: Event, force: bool) -> bool {
    match e {
        Event::Exited { success, .. } => !success && !force,
        _ => false,
    }
}

/// The library that the `i`-th input resolves to, from the lister's output.
pub open spec fn resolved_from(lib: StaticLib, c: Config, i: int, output: Seq<char>) -> bool {
    &&& lib.path@ == c.libraries@[i]@
    &&& lib.name@ == file_name_of(c.libraries@[i]@)
    &&& views(lib.symbols@) == retained(symbols_in_output(output), views(c.patterns@))
}

/// The tool that builds the output archive.
pub open spec fn archive_tool(c: Config) -> Seq<char> {
    match c.platform {
        Platform::MachO => c.generator@,
        Platform::Elf => c.archiver@,
    }
}

/// After a tool exits: stop with its standard error when it failed and the
/// run is not forced; otherwise go on to `next`, asking for what `proceeds`
/// says of `a`.
pub open spec fn after_tool(e: Event, c: Config, t: Pipeline, a: Action, next: Phase, proceeds: bool) -> bool {
    if halts_on(e, c.force) {
        t.phase == Phase::Finished && fails_with(a, PrelinkError::ToolInvocationFailed { stderr: e->stderr })
    } else {
        t.phase == next && proceeds
    }
}

/// One step of a run: from state `s`, on event `e`, to state `t`, asking for `a`.
pub open spec fn steps_to(s: Pipeline, e: Event, t: Pipeline, a: Action) -> bool {
    &&& t.config == s.config
    &&& match e {
        Event::Failed { message } => t.phase == Phase::Finished && t.libs == s.libs && fails_with(
            a,
            PrelinkError::FilesystemError { message },
        ),
        _ => advances(s, e, t, a),
    }
}

/// A step on an event that is not a failure of the action itself.
pub open spec fn advances(s: Pipeline, e: Event, t: Pipeline, a: Action) -> bool {
    let c = s.config;
    match s.phase {
        Phase::Resolving(i) => match e {
            Event::Exited { success, stdout, stderr } => if !success && !c.force {
                t.phase == Phase::Finished && t.libs == s.libs && fails_with(
                    a,
                    PrelinkError::ToolInvocationFailed { stderr },
                )
            } else {
                &&& t.libs@ == s.libs@.push(t.libs@[i as int])
                &&& resolved_from(t.libs@[i as int], c, i as int, stdout@)
                &&& if i + 1 < s.count() {
                    t.phase == Phase::Resolving((i + 1) as usize) && lists_symbols(a, c, i + 1)
                } else {
                    t.phase == Phase::MakingDir(0) && creates_dir(a, t.dir_of(0))
                }
            },
            _ => false,
        },
        _ => t.libs == s.libs && advances_same(s, e, t, a),
    }
}

/// A step that leaves the resolved libraries as they are.
pub open spec fn advances_same(s: Pipeline, e: Event, t: Pipeline, a: Action) -> bool {
    let c = s.config;
    match s.phase {
        Phase::CreatingWorkspace => t.phase == Phase::Resolving(0) && lists_symbols(a, c, 0),
        Phase::MakingDir(i) => t.phase == Phase::Extracting(i) && runs(
            a,
            c,
            c.archiver@,
            extract_args(s.libs@[i as int].path@),
            s.dir_of(i as int),
        ),
        Phase::Extracting(i) => after_tool(
            e,
            c,
            t,
            a,
            Phase::WritingList(i),
            writes_file(
                a,
                in_dir(s.dir_of(i as int), SYMBOLS_LIST_FILE@),
                join(views(s.libs@[i as int].symbols@), '\n'),
            ),
        ),
        Phase::WritingList(i) => t.phase == Phase::ListingObjects(i) && lists_dir(a, s.dir_of(i as int)),
        Phase::ListingObjects(i) => match e {
            Event::Listed { names } => t.phase == Phase::Linking(i) && runs(
                a,
                c,
                c.linker@,
                link_args(c.platform, object_files(views(names@))),
                s.dir_of(i as int),
            ),
            _ => false,
        },
        Phase::Linking(i) => after_tool(
            e,
            c,
            t,
            a,
            Phase::CheckingLinked(i),
            checks_file(a, in_dir(s.dir_of(i as int), PRELINKED_FILE@)),
        ),
        Phase::CheckingLinked(i) => match e {
            Event::Checked { exists } => if !exists {
                t.phase == Phase::Finished && reports_missing(a, in_dir(s.dir_of(i as int), PRELINKED_FILE@))
            } else {
                match c.platform {
                    Platform::MachO => t.phase == Phase::Moving(i) && renames(
                        a,
                        in_dir(s.dir_of(i as int), PRELINKED_FILE@),
                        s.dest_of(i as int),
                    ),
                    Platform::Elf => t.phase == Phase::Hiding(i) && runs(
                        a,
                        c,
                        c.generator@,
                        hide_args(),
                        s.dir_of(i as int),
                    ),
                }
            },
            _ => false,
        },
        Phase::Hiding(i) => after_tool(
            e,
            c,
            t,
            a,
            Phase::Moving(i),
            renames(a, in_dir(s.dir_of(i as int), PRELINKED_FILE@), s.dest_of(i as int)),
        ),
        Phase::Moving(i) => if i + 1 < s.count() {
            t.phase == Phase::MakingDir((i + 1) as usize) && creates_dir(a, s.dir_of(i + 1))
        } else {
            t.phase == Phase::ListingFinal && lists_dir(a, root())
        },
        Phase::ListingFinal => match e {
            Event::Listed { names } => t.phase == Phase::Archiving && runs(
                a,
                c,
                archive_tool(c),
                archive_args(c.platform, c.output@, object_files(views(names@))),
                root(),
            ),
            _ => false,
        },
        Phase::Archiving => after_tool(e, c, t, a, Phase::CheckingOutput, checks_file(a, c.output@)),
        Phase::CheckingOutput => match e {
            Event::Checked { exists } => if !exists {
                t.phase == Phase::Finished && reports_missing(a, c.output@)
            } else {
                t.phase == Phase::Releasing && removes_workspace(a)
            },
            _ => false,
        },
        Phase::Releasing => t.phase == Phase::Finished && a == Action::Stop(Ok(())),
        _ => false,
    }
}

/// The names among `names` that match `glob`, in order: of a directory's
/// entries, those that the glob selects.
pub fn list_dir_glob(names: &Vec<String>, glob: &str) -> (r: Vec<String>)
    ensures
        views(r@) == retained(views(names@), seq![glob@]),
{
    let globs = vec![glob.to_owned()];
    proof {
        assert(views(globs@) =~= seq![glob@]);
    }
    filter_symbols(names, &globs)
}

impl Pipeline {
    /// A run over `config`, and its first action: creating the workspace.
    pub fn start(config: Config) -> (r: (Pipeline, Action))
        requires
            config.libraries@.len() > 0,
        ensures
            r.0.wf(),
            r.0.config == config,
            r.0.phase == Phase::CreatingWorkspace,
            r.1 matches Action::CreateWorkspace { root: p } && p@ == root(),
    {
        (
            Pipeline { config, libs: Vec::new(), phase: Phase::CreatingWorkspace },
            Action::CreateWorkspace { root: TEMP_ROOT.to_owned() },
        )
    }

    /// Whether `e` answers the action that the run waits on.
    pub fn expects(&self, e: &Event) -> (r: bool)
        ensures
            r == self.expects_spec(*e),
    {
        match self.phase {
            Phase::Finished => false,
            Phase::CreatingWorkspace | Phase::MakingDir(_) | Phase::WritingList(_)
            | Phase::Moving(_) | Phase::Releasing => matches!(e, Event::Done | Event::Failed { .. }),
            Phase::Resolving(_) | Phase::Extracting(_) | Phase::Linking(_) | Phase::Hiding(_)
            | Phase::Archiving => matches!(e, Event::Exited { .. } | Event::Failed { .. }),
            Phase::ListingObjects(_) | Phase::ListingFinal => matches!(e, Event::Listed { .. } | Event::Failed { .. }),
            Phase::CheckingLinked(_) | Phase::CheckingOutput => matches!(e, Event::Checked { .. } | Event::Failed { .. }),
        }
    }

    /// The file name of the library that a step taken in `phase` was about:
    /// the one being resolved, or the one being extracted, linked or moved.
    /// Diagnostics of a failure in that step carry it.
    pub fn failed_library(&self, phase: Phase) -> (r: Option<String>)
        ensures
            match phase {
                Phase::Resolving(i) => if i < self.count() {
                    r is Some && r->0@ == file_name_of(self.config.libraries@[i as int]@)
                } else {
                    r is None
                },
                Phase::MakingDir(i) | Phase::Extracting(i) | Phase::WritingList(i)
                | Phase::ListingObjects(i) | Phase::Linking(i) | Phase::CheckingLinked(i)
                | Phase::Hiding(i) | Phase::Moving(i) => if i < self.libs@.len() {
                    r is Some && r->0@ == self.libs@[i as int].name@
                } else {
                    r is None
                },
                _ => r is None,
            },
    {
        match phase {
            Phase::Resolving(i) => if i < self.config.libraries.len() {
                Some(file_name(self.config.libraries[i].as_str()))
            } else {
                None
            },
            Phase::MakingDir(i) | Phase::Extracting(i) | Phase::WritingList(i)
            | Phase::ListingObjects(i) | Phase::Linking(i) | Phase::CheckingLinked(i)
            | Phase::Hiding(i) | Phase::Moving(i) => if i < self.libs.len() {
                Some(self.libs[i].name.clone())
            } else {
                None
            },
            _ => None,
        }
    }

    /// Whether the run is over.
    pub fn is_finished(&self) -> (r: bool)
        ensures
            r == (self.phase == Phase::Finished),
    {
        self.phase == Phase::Finished
    }

    fn list_action(&self, i: usize) -> (a: Action)
        requires
            i < self.config.libraries@.len(),
        ensures
            lists_symbols(a, self.config, i as int),
    {
        Action::Run(
            list_symbols_invocation(
                self.config.platform,
                &self.config.symbol_lister,
                &self.config.libraries[i],
            ),
        )
    }

    fn work_dir_at(&self, i: usize) -> (r: String)
        requires
            i < self.libs@.len(),
        ensures
            r@ == self.dir_of(i as int),
    {
        let wn = work_name_of(i, &self.libs[i].name);
        path_join(TEMP_ROOT, wn.as_str())
    }

    fn dest_at(&self, i: usize) -> (r: String)
        requires
            i < self.libs@.len(),
        ensures
            r@ == self.dest_of(i as int),
    {
        let wn = work_name_of(i, &self.libs[i].name);
        let p = path_join(TEMP_ROOT, wn.as_str());
        concat(p.as_str(), ".prelink.o")
    }

    fn linked_at(&self, i: usize) -> (r: String)
        requires
            i < self.libs@.len(),
        ensures
            r@ == in_dir(self.dir_of(i as int), PRELINKED_FILE@),
    {
        let d = self.work_dir_at(i);
        path_join(d.as_str(), PRELINKED_FILE)
    }
}

impl Pipeline {
    /// Takes what came of the last action and returns the next one. Every
    /// failure stops the run at once; a tool's failure status stops it only
    /// when the run is not forced, and a missing output file stops it always.
    pub fn step(&mut self, event: Event) -> (a: Action)
        requires
            old(self).wf(),
            old(self).expects_spec(event),
        ensures
            final(self).wf(),
            steps_to(*old(self), event, *final(self), a),
    {
        let ghost e0 = event;
        if let Event::Failed { message } = event {
            self.phase = Phase::Finished;
            return Action::Stop(Err(PrelinkError::FilesystemError { message }));
        }
        let force = self.config.force;
        let verbose = self.config.verbose;
        match self.phase {
            Phase::CreatingWorkspace => {
                let a = self.list_action(0);
                self.phase = Phase::Resolving(0);
                a
            },
            Phase::Resolving(i) => match event {
                Event::Exited { success, stdout, stderr } => {
                    if !success && !force {
                        self.phase = Phase::Finished;
                        return Action::Stop(Err(PrelinkError::ToolInvocationFailed { stderr }));
                    }
                    let path = self.config.libraries[i].clone();
                    let name = file_name(path.as_str());
                    let all = read_symbols(stdout.as_str());
                    let symbols = filter_symbols(&all, &self.config.patterns);
                    self.libs.push(StaticLib { path, name, symbols });
                    if i < self.config.libraries.len() - 1 {
                        let a = self.list_action(i + 1);
                        self.phase = Phase::Resolving(i + 1);
                        a
                    } else {
                        let d = self.work_dir_at(0);
                        self.phase = Phase::MakingDir(0);
                        Action::CreateDir { path: d }
                    }
                },
                _ => Action::Stop(Ok(())),
            },
            Phase::MakingDir(i) => {
                let d = self.work_dir_at(i);
                let inv = extract_invocation(&self.config.archiver, &self.libs[i].path, &d, verbose);
                self.phase = Phase::Extracting(i);
                Action::Run(inv)
            },
            Phase::Extracting(i) => {
                if let Event::Exited { success, stdout: _, stderr } = event {
                    if !success && !force {
                        self.phase = Phase::Finished;
                        return Action::Stop(Err(PrelinkError::ToolInvocationFailed { stderr }));
                    }
                }
                let d = self.work_dir_at(i);
                let path = path_join(d.as_str(), SYMBOLS_LIST_FILE);
                let contents = symbol_list_text(&self.libs[i].symbols);
                self.phase = Phase::WritingList(i);
                Action::WriteFile { path, contents }
            },
            Phase::WritingList(i) => {
                let d = self.work_dir_at(i);
                self.phase = Phase::ListingObjects(i);
                Action::ListDir { path: d }
            },
            Phase::ListingObjects(i) => match event {
                Event::Listed { names } => {
                    let objects = list_dir_glob(&names, "*.o");
                    let d = self.work_dir_at(i);
                    let inv = link_invocation(self.config.platform, &self.config.linker, &d, &objects, verbose);
                    self.phase = Phase::Linking(i);
                    Action::Run(inv)
                },
                _ => Action::Stop(Ok(())),
            },
            Phase::Linking(i) => {
                if let Event::Exited { success, stdout: _, stderr } = event {
                    if !success && !force {
                        self.phase = Phase::Finished;
                        return Action::Stop(Err(PrelinkError::ToolInvocationFailed { stderr }));
                    }
                }
                let p = self.linked_at(i);
                self.phase = Phase::CheckingLinked(i);
                Action::CheckFile { path: p }
            },
            Phase::CheckingLinked(i) => match event {
                Event::Checked { exists } => {
                    let p = self.linked_at(i);
                    if !exists {
                        self.phase = Phase::Finished;
                        return Action::Stop(Err(PrelinkError::OutputArtifactMissing { path: p }));
                    }
                    match self.config.platform {
                        Platform::MachO => {
                            let to = self.dest_at(i);
                            self.phase = Phase::Moving(i);
                            Action::Rename { from: p, to }
                        },
                        Platform::Elf => {
                            let d = self.work_dir_at(i);
                            let inv = hide_invocation(&self.config.generator, &d, verbose);
                            self.phase = Phase::Hiding(i);
                            Action::Run(inv)
                        },
                    }
                },
                _ => Action::Stop(Ok(())),
            },
            Phase::Hiding(i) => {
                if let Event::Exited { success, stdout: _, stderr } = event {
                    if !success && !force {
                        self.phase = Phase::Finished;
                        return Action::Stop(Err(PrelinkError::ToolInvocationFailed { stderr }));
                    }
                }
                let from = self.linked_at(i);
                let to = self.dest_at(i);
                self.phase = Phase::Moving(i);
                Action::Rename { from, to }
            },
            Phase::Moving(i) => {
                if i < self.config.libraries.len() - 1 {
                    let d = self.work_dir_at(i + 1);
                    self.phase = Phase::MakingDir(i + 1);
                    Action::CreateDir { path: d }
                } else {
                    self.phase = Phase::ListingFinal;
                    Action::ListDir { path: TEMP_ROOT.to_owned() }
                }
            },
            Phase::ListingFinal => match event {
                Event::Listed { names } => {
                    let objects = list_dir_glob(&names, "*.o");
                    let root_dir = TEMP_ROOT.to_owned();
                    let tool = match self.config.platform {
                        Platform::MachO => &self.config.generator,
                        Platform::Elf => &self.config.archiver,
                    };
                    let inv = archive_invocation(
                        self.config.platform,
                        tool,
                        &root_dir,
                        &self.config.output,
                        &objects,
                        verbose,
                    );
                    self.phase = Phase::Archiving;
                    Action::Run(inv)
                },
                _ => Action::Stop(Ok(())),
            },
            Phase::Archiving => {
                if let Event::Exited { success, stdout: _, stderr } = event {
                    if !success && !force {
                        self.phase = Phase::Finished;
                        return Action::Stop(Err(PrelinkError::ToolInvocationFailed { stderr }));
                    }
                }
                self.phase = Phase::CheckingOutput;
                Action::CheckFile { path: self.config.output.clone() }
            },
            Phase::CheckingOutput => match event {
                Event::Checked { exists } => {
                    if !exists {
                        self.phase = Phase::Finished;
                        return Action::Stop(
                            Err(PrelinkError::OutputArtifactMissing { path: self.config.output.clone() }),
                        );
                    }
                    self.phase = Phase::Releasing;
                    Action::RemoveWorkspace { root: TEMP_ROOT.to_owned() }
                },
                _ => Action::Stop(Ok(())),
            },
            Phase::Releasing => {
                self.phase = Phase::Finished;
                Action::Stop(Ok(()))
            },
            Phase::Finished => Action::Stop(Ok(())),
        }
    }
}

/// Every extraction runs in the directory that the step before it asked to
/// remove and create afresh; so running again over the same inputs extracts
/// each library into an empty directory of its own.
pub proof fn lemma_extract_into_fresh_dir(
    s0: Pipeline,
    e0: Event,
    s1: Pipeline,
    a0: Action,
    e1: Event,
    s2: Pipeline,
    a1: Action,
    i: usize,
)
    requires
        s0.wf(),
        steps_to(s0, e0, s1, a0),
        s1.wf(),
        steps_to(s1, e1, s2, a1),
        s2.phase == Phase::Extracting(i),
    ensures
        s1.phase == Phase::MakingDir(i),
        creates_dir(a0, s1.dir_of(i as int)),
        runs(a1, s1.config, s1.config.archiver@, extract_args(s1.libs@[i as int].path@), s1.dir_of(i as int)),
{
    match s0.phase {
        Phase::Moving(j) => {
            assert(s1.libs == s0.libs);
            assert(j + 1 < s0.count());
            assert(s0.config.libraries.len() == s0.count());
            assert(j + 1 == i);
        },
        Phase::Resolving(j) => {
            assert(i == 0);
        },
        _ => {},
    }
}

/// A symbol listing that exits with a failure status stops the run with the
/// lister's standard error, unless the run is forced; then the library is
/// resolved from whatever the lister printed, and the run goes on.
pub proof fn lemma_force_on_listing(s: Pipeline, t: Pipeline, a: Action, stdout: String, stderr: String, i: usize)
    requires
        s.wf(),
        s.phase == Phase::Resolving(i),
        steps_to(s, Event::Exited { success: false, stdout, stderr }, t, a),
    ensures
        s.config.force ==> t.phase != Phase::Finished && t.libs@.len() == i + 1 && resolved_from(
            t.libs@[i as int],
            s.config,
            i as int,
            stdout@,
        ),
        !s.config.force ==> t.phase == Phase::Finished && fails_with(
            a,
            PrelinkError::ToolInvocationFailed { stderr },
        ),
{
}

/// When the output archive is missing after the archiving tool ran, the run
/// fails reporting it, whatever the tool's exit status and whether or not the
/// run is forced.
pub proof fn lemma_missing_output_fails(s: Pipeline, t: Pipeline, a: Action)
    requires
        s.phase == Phase::CheckingOutput,
        steps_to(s, Event::Checked { exists: false }, t, a),
    ensures
        t.phase == Phase::Finished,
        reports_missing(a, s.config.output@),
{
}

/// Likewise for a library's linked object: when it is missing after the
/// linker ran, the run fails reporting it.
pub proof fn lemma_missing_linked_object_fails(s: Pipeline, t: Pipeline, a: Action, i: usize)
    requires
        s.phase == Phase::CheckingLinked(i),
        steps_to(s, Event::Checked { exists: false }, t, a),
    ensures
        t.phase == Phase::Finished,
        reports_missing(a, in_dir(s.dir_of(i as int), PRELINKED_FILE@)),
{
}

/// Two libraries of a run never share an extraction directory or a
/// destination for their prelinked objects, even when their file names agree.
pub proof fn lemma_libraries_do_not_collide(p: Pipeline, i: int, j: int)
    requires
        0 <= i < p.libs@.len(),
        0 <= j < p.libs@.len(),
        i != j,
    ensures
        p.dir_of(i) != p.dir_of(j),
        p.dest_of(i) != p.dest_of(j),
{
    let a = p.libs@[i].name@;
    let b = p.libs@[j].name@;
    lemma_work_names_distinct(i as nat, j as nat, a, b);
    let head = root() + seq!['/'];
    let wi = work_name(i as nat, a);
    let wj = work_name(j as nat, b);
    if p.dir_of(i) == p.dir_of(j) {
        assert((head + wi).subrange(head.len() as int, (head + wi).len() as int) =~= wi);
        assert((head + wj).subrange(head.len() as int, (head + wj).len() as int) =~= wj);
    }
    if p.dest_of(i) == p.dest_of(j) {
        let tail = ".prelink.o"@;
        assert(p.dest_of(i) =~= head + wi + tail);
        assert(p.dest_of(j) =~= head + wj + tail);
        assert((head + wi + tail).subrange(head.len() as int, (head + wi + tail).len() - tail.len()) =~= wi);
        assert((head + wj + tail).subrange(head.len() as int, (head + wj + tail).len() - tail.len()) =~= wj);
    }
}

} // verus!
