use soplink::commands::Invocation;
use soplink::pipeline::{list_dir_glob, Action, Config, Event, Phase, Pipeline};
use soplink::setup::begin_run;
use soplink::tools::{Candidate, CliOptions, Platform, PrelinkError};

fn config(platform: Platform, libs: &[&str], patterns: &[&str], force: bool) -> Config {
    Config {
        platform,
        libraries: libs.iter().map(|s| s.to_string()).collect(),
        patterns: patterns.iter().map(|s| s.to_string()).collect(),
        output: "/work/out.a".to_string(),
        symbol_lister: "nm".to_string(),
        linker: "ld".to_string(),
        archiver: "ar".to_string(),
        generator: match platform {
            Platform::MachO => "libtool".to_string(),
            Platform::Elf => "objcopy".to_string(),
        },
        force,
        verbose: false,
    }
}

fn show(inv: &Invocation) -> String {
    let mut s = inv.program.clone();
    for a in &inv.args {
        s.push(' ');
        s.push_str(a);
    }
    if let Some(d) = &inv.dir {
        s.push_str(" @");
        s.push_str(d);
    }
    s
}

fn exited(success: bool, stdout: &str) -> Event {
    Event::Exited { success, stdout: stdout.to_string(), stderr: "tool error".to_string() }
}

/// Runs the machine to its end; `answer` plays the outside world. Returns
/// the actions asked for, written out, and the outcome.
fn drive(
    p: &mut Pipeline,
    first: Action,
    mut answer: impl FnMut(&Action) -> Event,
) -> (Vec<String>, Result<(), PrelinkError>) {
    let mut log = Vec::new();
    let mut action = first;
    loop {
        let line = match &action {
            Action::Stop(_) => String::new(),
            Action::CreateWorkspace { root } => format!("create-workspace {}", root),
            Action::Run(inv) => format!("run {}", show(inv)),
            Action::CreateDir { path } => format!("create-dir {}", path),
            Action::WriteFile { path, contents } => format!("write {} [{}]", path, contents),
            Action::ListDir { path } => format!("list {}", path),
            Action::CheckFile { path } => format!("check {}", path),
            Action::Rename { from, to } => format!("rename {} {}", from, to),
            Action::RemoveWorkspace { root } => format!("remove-workspace {}", root),
        };
        if let Action::Stop(r) = action {
            return (log, r);
        }
        log.push(line);
        let ev = answer(&action);
        assert!(p.expects(&ev));
        action = p.step(ev);
    }
}

/// A world where every action succeeds; listings print `nm_out` per library
/// in turn, and directories hold the given entries.
fn happy_world(nm_out: Vec<&'static str>, dir_entries: Vec<&'static str>, root_entries: Vec<&'static str>) -> impl FnMut(&Action) -> Event {
    let mut listing = 0;
    move |a: &Action| match a {
        Action::Run(inv) if inv.program == "nm" => {
            let out = nm_out[listing];
            listing += 1;
            exited(true, out)
        },
        Action::Run(_) => exited(true, ""),
        Action::ListDir { path } if path == ".soplink.tmp" => {
            Event::Listed { names: root_entries.iter().map(|s| s.to_string()).collect() }
        },
        Action::ListDir { .. } => Event::Listed { names: dir_entries.iter().map(|s| s.to_string()).collect() },
        Action::CheckFile { .. } => Event::Checked { exists: true },
        _ => Event::Done,
    }
}

#[test]
fn two_libraries_end_to_end_on_macho() {
    let (mut p, first) = Pipeline::start(config(Platform::MachO, &["libs/A.a", "B.a"], &["foo"], false));
    let world = happy_world(
        vec!["A.a:a.o: foo\nA.a:a.o: bar\n", "B.a:b.o: baz\nB.a:b.o: foo\n"],
        vec!["a.o", "symbols-list.txt", "c.o"],
        vec!["0-A.a.prelink.o", "1-B.a.prelink.o", "0-A.a", "1-B.a"],
    );
    let (log, r) = drive(&mut p, first, world);
    assert!(r.is_ok());
    assert_eq!(p.libs.len(), 2);
    assert_eq!(p.libs[0].symbols, vec!["foo".to_string()]);
    assert_eq!(p.libs[1].symbols, vec!["foo".to_string()]);
    assert_eq!(p.libs[0].name, "A.a");
    let expected = vec![
        "create-workspace .soplink.tmp",
        "run nm -jgUA libs/A.a",
        "run nm -jgUA B.a",
        "create-dir .soplink.tmp/0-A.a",
        "run ar x libs/A.a @.soplink.tmp/0-A.a",
        "write .soplink.tmp/0-A.a/symbols-list.txt [foo]",
        "list .soplink.tmp/0-A.a",
        "run ld -r -exported_symbols_list symbols-list.txt -o prelinked.o a.o c.o @.soplink.tmp/0-A.a",
        "check .soplink.tmp/0-A.a/prelinked.o",
        "rename .soplink.tmp/0-A.a/prelinked.o .soplink.tmp/0-A.a.prelink.o",
        "create-dir .soplink.tmp/1-B.a",
        "run ar x B.a @.soplink.tmp/1-B.a",
        "write .soplink.tmp/1-B.a/symbols-list.txt [foo]",
        "list .soplink.tmp/1-B.a",
        "run ld -r -exported_symbols_list symbols-list.txt -o prelinked.o a.o c.o @.soplink.tmp/1-B.a",
        "check .soplink.tmp/1-B.a/prelinked.o",
        "rename .soplink.tmp/1-B.a/prelinked.o .soplink.tmp/1-B.a.prelink.o",
        "list .soplink.tmp",
        "run libtool -static -o /work/out.a 0-A.a.prelink.o 1-B.a.prelink.o @.soplink.tmp",
        "check /work/out.a",
        "remove-workspace .soplink.tmp",
    ];
    assert_eq!(log, expected);
}

#[test]
fn elf_links_then_hides_then_archives_with_ar() {
    let (mut p, first) = Pipeline::start(config(Platform::Elf, &["A.a"], &["f*"], false));
    let world = happy_world(vec!["A.a:a.o:foo\nA.a:a.o:fab\nA.a:a.o:gee\n"], vec!["a.o"], vec!["0-A.a.prelink.o"]);
    let (log, r) = drive(&mut p, first, world);
    assert!(r.is_ok());
    assert_eq!(p.libs[0].symbols, vec!["foo".to_string(), "fab".to_string()]);
    assert!(log.contains(&"run nm -g --defined-only -A --format=just-symbols A.a".to_string()));
    assert!(log.contains(&"write .soplink.tmp/0-A.a/symbols-list.txt [foo\nfab]".to_string()));
    assert!(log.contains(
        &"run ld -r --export-dynamic-symbol-list=symbols-list.txt -o prelinked.o a.o @.soplink.tmp/0-A.a".to_string()
    ));
    assert!(log.contains(
        &"run objcopy --keep-global-symbols=symbols-list.txt prelinked.o @.soplink.tmp/0-A.a".to_string()
    ));
    assert!(log.contains(&"run ar rs /work/out.a 0-A.a.prelink.o @.soplink.tmp".to_string()));
    let hide = log.iter().position(|l| l.starts_with("run objcopy")).unwrap();
    let check = log.iter().position(|l| l.starts_with("check .soplink.tmp/0-A.a/prelinked.o")).unwrap();
    let rename = log.iter().position(|l| l.starts_with("rename")).unwrap();
    assert!(check < hide && hide < rename);
}

fn failing_lister(a: &Action) -> Event {
    match a {
        Action::Run(inv) if inv.program == "nm" => exited(false, "L.a:x.o: foo\nL.a:x.o: other\n"),
        Action::Run(_) => exited(true, ""),
        Action::ListDir { .. } => Event::Listed { names: vec!["x.o".to_string()] },
        Action::CheckFile { .. } => Event::Checked { exists: true },
        _ => Event::Done,
    }
}

#[test]
fn forced_run_uses_partial_lister_output() {
    let (mut p, first) = Pipeline::start(config(Platform::MachO, &["L.a"], &["foo"], true));
    let (_, r) = drive(&mut p, first, failing_lister);
    assert!(r.is_ok());
    assert_eq!(p.libs[0].symbols, vec!["foo".to_string()]);
}

#[test]
fn unforced_run_stops_on_lister_failure() {
    let (mut p, first) = Pipeline::start(config(Platform::MachO, &["L.a", "M.a"], &["foo"], false));
    let (log, r) = drive(&mut p, first, failing_lister);
    match r {
        Err(PrelinkError::ToolInvocationFailed { stderr }) => assert_eq!(stderr, "tool error"),
        other => panic!("unexpected {:?}", other),
    }
    assert_eq!(log.len(), 2);
    assert!(p.is_finished());
}

#[test]
fn missing_output_fails_even_after_success() {
    let (mut p, first) = Pipeline::start(config(Platform::Elf, &["A.a"], &["foo"], true));
    let answer = |a: &Action| match a {
        Action::Run(_) => exited(true, "A.a:a.o: foo\n"),
        Action::ListDir { .. } => Event::Listed { names: vec!["a.o".to_string()] },
        Action::CheckFile { path } => Event::Checked { exists: path != "/work/out.a" },
        _ => Event::Done,
    };
    let (log, r) = drive(&mut p, first, answer);
    match r {
        Err(PrelinkError::OutputArtifactMissing { path }) => assert_eq!(path, "/work/out.a"),
        other => panic!("unexpected {:?}", other),
    }
    assert!(!log.iter().any(|l| l.starts_with("remove-workspace")));
}

#[test]
fn missing_linked_object_fails() {
    let (mut p, first) = Pipeline::start(config(Platform::MachO, &["A.a"], &["foo"], true));
    let answer = |a: &Action| match a {
        Action::Run(_) => exited(true, "A.a:a.o: foo\n"),
        Action::ListDir { .. } => Event::Listed { names: vec!["a.o".to_string()] },
        Action::CheckFile { .. } => Event::Checked { exists: false },
        _ => Event::Done,
    };
    let (_, r) = drive(&mut p, first, answer);
    match r {
        Err(PrelinkError::OutputArtifactMissing { path }) => {
            assert_eq!(path, ".soplink.tmp/0-A.a/prelinked.o")
        },
        other => panic!("unexpected {:?}", other),
    }
}

#[test]
fn filesystem_failure_stops_run() {
    let (mut p, first) = Pipeline::start(config(Platform::MachO, &["A.a"], &["foo"], true));
    let answer = |a: &Action| match a {
        Action::Run(_) => exited(true, "A.a:a.o: foo\n"),
        Action::Rename { .. } => Event::Failed { message: "cannot move".to_string() },
        Action::ListDir { .. } => Event::Listed { names: vec!["a.o".to_string()] },
        Action::CheckFile { .. } => Event::Checked { exists: true },
        _ => Event::Done,
    };
    let (_, r) = drive(&mut p, first, answer);
    match r {
        Err(PrelinkError::FilesystemError { message }) => assert_eq!(message, "cannot move"),
        other => panic!("unexpected {:?}", other),
    }
}

#[test]
fn extraction_failure_respects_force() {
    let answer = |a: &Action| match a {
        Action::Run(inv) if inv.program == "ar" => exited(false, ""),
        Action::Run(_) => exited(true, "A.a:a.o: foo\n"),
        Action::ListDir { .. } => Event::Listed { names: vec!["a.o".to_string()] },
        Action::CheckFile { .. } => Event::Checked { exists: true },
        _ => Event::Done,
    };
    let (mut p, first) = Pipeline::start(config(Platform::MachO, &["A.a"], &["foo"], false));
    let (_, r) = drive(&mut p, first, answer);
    assert!(matches!(r, Err(PrelinkError::ToolInvocationFailed { .. })));
    let (mut q, first) = Pipeline::start(config(Platform::MachO, &["A.a"], &["foo"], true));
    let (_, r) = drive(&mut q, first, answer);
    assert!(r.is_ok());
}

#[test]
fn rerun_recreates_each_extraction_dir_before_extracting() {
    let mut logs = Vec::new();
    for _ in 0..2 {
        let (mut p, first) = Pipeline::start(config(Platform::MachO, &["A.a", "B.a"], &["*"], false));
        let world = happy_world(vec!["A.a:a.o: foo\n", "B.a:b.o: bar\n"], vec!["a.o"], vec!["x.o"]);
        let (log, r) = drive(&mut p, first, world);
        assert!(r.is_ok());
        for (k, line) in log.iter().enumerate() {
            if line.starts_with("run ar x") {
                let dir = line.rsplit('@').next().unwrap();
                assert_eq!(log[k - 1], format!("create-dir {}", dir));
            }
        }
        logs.push(log);
    }
    assert_eq!(logs[0], logs[1]);
}

#[test]
fn same_file_name_in_two_directories_gets_two_work_dirs() {
    let (mut p, first) = Pipeline::start(config(Platform::MachO, &["x/util.a", "y/util.a"], &["*"], false));
    let world = happy_world(vec!["u:a.o: f\n", "u:b.o: g\n"], vec!["a.o"], vec!["x.o"]);
    let (log, r) = drive(&mut p, first, world);
    assert!(r.is_ok());
    let dirs: Vec<&String> = log.iter().filter(|l| l.starts_with("create-dir")).collect();
    assert_eq!(dirs.len(), 2);
    assert_ne!(dirs[0], dirs[1]);
    let moves: Vec<&String> = log.iter().filter(|l| l.starts_with("rename")).collect();
    assert!(moves[0].ends_with(".soplink.tmp/0-util.a.prelink.o"));
    assert!(moves[1].ends_with(".soplink.tmp/1-util.a.prelink.o"));
}

fn cli(files: &[&str]) -> CliOptions {
    CliOptions {
        files: files.iter().map(|s| s.to_string()).collect(),
        output: None,
        symbols: vec!["foo".to_string()],
        symbol_lists: Some("list.txt".to_string()),
        symbol_provider_tool: None,
        linker_tool: None,
        archiver_tool: None,
        generator_tool: None,
        force: false,
        verbose: false,
    }
}

#[test]
fn begin_run_fails_before_any_action_when_tool_missing() {
    let mut o = cli(&["A.a"]);
    let c = vec![
        Candidate { name: "nm".to_string(), path: "/bin/nm".to_string(), is_file: true },
        Candidate { name: "ar".to_string(), path: "/bin/ar".to_string(), is_file: true },
        Candidate { name: "libtool".to_string(), path: "/bin/libtool".to_string(), is_file: true },
    ];
    match begin_run(&mut o, Platform::MachO, &c, Some("bar\n"), &"/w/out.a".to_string()) {
        Err(PrelinkError::ToolNotFound { tool }) => assert_eq!(tool, "ld"),
        Err(e) => panic!("unexpected {:?}", e),
        Ok(_) => panic!("a run started without a linker"),
    }
}

#[test]
fn begin_run_loads_patterns_and_starts() {
    let mut o = cli(&["A.a"]);
    let c: Vec<Candidate> = ["nm", "ld", "ar", "objcopy"]
        .iter()
        .map(|n| Candidate { name: n.to_string(), path: format!("/bin/{}", n), is_file: true })
        .collect();
    let (p, first) = begin_run(&mut o, Platform::Elf, &c, Some("# c\nbar*\n"), &"/w/out.a".to_string()).unwrap();
    assert_eq!(p.config.patterns, vec!["foo".to_string(), "bar*".to_string()]);
    assert_eq!(p.config.linker, "/bin/ld");
    assert_eq!(p.config.output, "/w/out.a");
    assert!(matches!(first, Action::CreateWorkspace { .. }));
}

#[test]
fn failure_names_the_library_by_file_name() {
    let (mut p, first) = Pipeline::start(config(Platform::MachO, &["some/dir/libq.a"], &["foo"], false));
    let answer = |a: &Action| match a {
        Action::Run(inv) if inv.program == "ld" => exited(false, ""),
        Action::Run(_) => exited(true, "q:a.o: foo\n"),
        Action::ListDir { .. } => Event::Listed { names: vec!["a.o".to_string()] },
        _ => Event::Done,
    };
    assert_eq!(p.failed_library(Phase::Resolving(0)), Some("libq.a".to_string()));
    let (_, r) = drive(&mut p, first, answer);
    assert!(matches!(r, Err(PrelinkError::ToolInvocationFailed { .. })));
    assert_eq!(p.failed_library(Phase::Linking(0)), Some("libq.a".to_string()));
    assert_eq!(p.failed_library(Phase::Archiving), None);
}

#[test]
fn list_dir_glob_selects_object_files() {
    let names: Vec<String> = ["a.o", "symbols-list.txt", "b.o", "x.oo", "sub"].iter().map(|s| s.to_string()).collect();
    assert_eq!(list_dir_glob(&names, "*.o"), vec!["a.o".to_string(), "b.o".to_string()]);
}
