use soplink::report::print_with_prefix;

#[test]
fn single_line_gets_prefix() {
    let mut out = String::new();
    print_with_prefix(&mut out, "liba.a", "failed");
    assert_eq!(out, "liba.a: failed\n");
}

#[test]
fn later_lines_are_indented_under_first() {
    let mut out = String::from(">");
    print_with_prefix(&mut out, "lib", "one\ntwo\nthree");
    assert_eq!(out, ">lib: one\n     two\n     three\n");
}

#[test]
fn trailing_newline_gives_indented_empty_line() {
    let mut out = String::new();
    print_with_prefix(&mut out, "x", "a\n");
    assert_eq!(out, "x: a\n   \n");
}
