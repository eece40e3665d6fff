use servicer::names::{full_service_name, unit_file_path};
use servicer::paths::{basename, extension, interpreter_for_extension, parent_dir, str_eq};

#[test]
fn service_name_gets_the_namespace_suffix() {
    assert_eq!(full_service_name("myapp"), "myapp.ser.service");
}

#[test]
fn unit_file_lives_under_the_fixed_directory() {
    assert_eq!(
        unit_file_path("myapp.ser.service"),
        "/etc/systemd/system/myapp.ser.service"
    );
}

#[test]
fn basename_takes_what_follows_the_last_slash() {
    assert_eq!(basename("a/b/index.js"), "index.js");
    assert_eq!(basename("index.js"), "index.js");
    assert_eq!(basename("/srv/app/run"), "run");
}

#[test]
fn parent_takes_what_precedes_the_last_slash() {
    assert_eq!(parent_dir("a/b/index.js"), "a/b");
    assert_eq!(parent_dir("index.js"), "");
}

#[test]
fn extension_needs_a_dot_after_the_first_character() {
    assert_eq!(extension("index.js").as_deref(), Some("js"));
    assert_eq!(extension("dir.d/script.py").as_deref(), Some("py"));
    assert_eq!(extension("Makefile"), None);
    assert_eq!(extension(".bashrc"), None);
    assert_eq!(extension("archive.tar.gz").as_deref(), Some("gz"));
}

#[test]
fn known_extensions_map_to_their_interpreters() {
    assert_eq!(interpreter_for_extension("js").as_deref(), Some("node"));
    assert_eq!(interpreter_for_extension("py").as_deref(), Some("python3"));
    assert_eq!(interpreter_for_extension("sh"), None);
}

#[test]
fn str_eq_compares_by_characters() {
    assert!(str_eq("abc", "abc"));
    assert!(!str_eq("abc", "abd"));
    assert!(!str_eq("abc", "ab"));
    assert!(str_eq("", ""));
}
