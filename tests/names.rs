use soplink::names::{path_join, work_name_of};

#[test]
fn work_name_has_index_and_file_name() {
    assert_eq!(work_name_of(0, &"libfoo.a".to_string()), "0-libfoo.a");
    assert_eq!(work_name_of(12, &"util.a".to_string()), "12-util.a");
    assert_eq!(work_name_of(105, &"x".to_string()), "105-x");
}

#[test]
fn joins_with_slash() {
    assert_eq!(path_join(".soplink.tmp", "0-a.a"), ".soplink.tmp/0-a.a");
}
