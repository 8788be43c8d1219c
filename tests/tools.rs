use soplink::tools::{
    find_all_tool_from_env, find_tool_from_env, tool_name, Candidate, CliOptions, Platform, PrelinkError,
    ToolRole,
};

fn options() -> CliOptions {
    CliOptions {
        files: vec!["liba.a".to_string()],
        output: None,
        symbols: vec!["foo".to_string()],
        symbol_lists: None,
        symbol_provider_tool: None,
        linker_tool: None,
        archiver_tool: None,
        generator_tool: None,
        force: false,
        verbose: false,
    }
}

fn cand(name: &str, path: &str, is_file: bool) -> Candidate {
    Candidate { name: name.to_string(), path: path.to_string(), is_file }
}

fn all_in(dir: &str, names: &[&str]) -> Vec<Candidate> {
    names.iter().map(|n| cand(n, &format!("{}/{}", dir, n), true)).collect()
}

#[test]
fn tool_names_per_platform() {
    assert_eq!(tool_name(Platform::MachO, ToolRole::Generator), "libtool");
    assert_eq!(tool_name(Platform::Elf, ToolRole::Generator), "objcopy");
    assert_eq!(tool_name(Platform::Elf, ToolRole::SymbolLister), "nm");
    assert_eq!(tool_name(Platform::MachO, ToolRole::Linker), "ld");
    assert_eq!(tool_name(Platform::MachO, ToolRole::Archiver), "ar");
}

#[test]
fn first_file_on_search_path_wins() {
    let c = vec![
        cand("ld", "/a/ld", false),
        cand("ar", "/b/ar", true),
        cand("ld", "/b/ld", true),
        cand("ld", "/c/ld", true),
    ];
    assert_eq!(find_tool_from_env(&c, "ld").unwrap(), "/b/ld");
}

#[test]
fn missing_tool_is_named() {
    let c = vec![cand("ld", "/a/ld", false)];
    match find_tool_from_env(&c, "ld") {
        Err(PrelinkError::ToolNotFound { tool }) => assert_eq!(tool, "ld"),
        other => panic!("unexpected {:?}", other),
    }
}

#[test]
fn fills_every_tool_from_search_path() {
    let mut o = options();
    let c = all_in("/usr/bin", &["nm", "ld", "ar", "objcopy"]);
    assert!(find_all_tool_from_env(&mut o, Platform::Elf, &c).is_ok());
    assert_eq!(o.symbol_provider_tool.as_deref(), Some("/usr/bin/nm"));
    assert_eq!(o.linker_tool.as_deref(), Some("/usr/bin/ld"));
    assert_eq!(o.archiver_tool.as_deref(), Some("/usr/bin/ar"));
    assert_eq!(o.generator_tool.as_deref(), Some("/usr/bin/objcopy"));
}

#[test]
fn override_is_kept() {
    let mut o = options();
    o.linker_tool = Some("/opt/ld64".to_string());
    let c = all_in("/usr/bin", &["nm", "ld", "ar", "libtool"]);
    assert!(find_all_tool_from_env(&mut o, Platform::MachO, &c).is_ok());
    assert_eq!(o.linker_tool.as_deref(), Some("/opt/ld64"));
    assert_eq!(o.generator_tool.as_deref(), Some("/usr/bin/libtool"));
}

#[test]
fn missing_tool_without_override_fails_naming_it() {
    let mut o = options();
    let c = all_in("/usr/bin", &["nm", "ld", "ar"]);
    match find_all_tool_from_env(&mut o, Platform::MachO, &c) {
        Err(PrelinkError::ToolNotFound { tool }) => assert_eq!(tool, "libtool"),
        other => panic!("unexpected {:?}", other),
    }
}

#[test]
fn missing_tool_with_override_is_fine() {
    let mut o = options();
    o.generator_tool = Some("/opt/objcopy".to_string());
    let c = all_in("/usr/bin", &["nm", "ld", "ar"]);
    assert!(find_all_tool_from_env(&mut o, Platform::Elf, &c).is_ok());
}
