use script_supervisor::locator::{check_python, locate_runtime};
use script_supervisor::supervisor::{build_invocation, diagnostic_tail, resolve_project_root};

#[test]
fn locator_takes_the_first_line_trimmed() {
    assert_eq!(
        locate_runtime(true, "/usr/bin/python3\n/usr/local/bin/python3\n"),
        Some(String::from("/usr/bin/python3"))
    );
    assert_eq!(locate_runtime(true, "  /opt/python  \n"), Some(String::from("/opt/python")));
}

#[test]
fn locator_reports_absence() {
    assert_eq!(locate_runtime(false, "/usr/bin/python3\n"), None);
    assert_eq!(locate_runtime(true, ""), None);
    assert_eq!(locate_runtime(true, "   \n/usr/bin/python3"), None);
}

#[test]
fn check_python_follows_the_locator() {
    assert!(check_python(true, "/usr/bin/python3\n"));
    assert!(!check_python(true, ""));
    assert!(!check_python(false, "/usr/bin/python3\n"));
}

#[test]
fn invocation_uses_the_located_interpreter() {
    let inv = build_invocation(Some(String::from("/usr/bin/python3")), String::from("/srv/proj"));
    assert_eq!(inv.program, "/usr/bin/python3");
    assert_eq!(inv.args, vec![String::from("-m"), String::from("script_controller.run")]);
    assert_eq!(inv.working_dir, "/srv/proj");
    assert_eq!(inv.env_key, "SCRIPT_CONTROLLER_ROOT");
    assert_eq!(inv.env_value, "/srv/proj/script_controller");
}

#[test]
fn invocation_falls_back_to_the_bare_command() {
    let inv = build_invocation(None, String::from("/srv/proj"));
    assert_eq!(inv.program, "python");
}

#[test]
fn project_root_prefers_the_environment_override() {
    let r = resolve_project_root(Some(" /from/env "), Some("/from/file"), String::from("/tmp/project"));
    assert_eq!(r, "/from/env");
}

#[test]
fn project_root_falls_back_to_the_sibling_file() {
    let r = resolve_project_root(Some("   "), Some(" /from/file \n"), String::from("/tmp/project"));
    assert_eq!(r, "/from/file");
    let r = resolve_project_root(None, Some("/from/file"), String::from("/tmp/project"));
    assert_eq!(r, "/from/file");
}

#[test]
fn project_root_defaults_when_nothing_is_set() {
    let r = resolve_project_root(None, None, String::from("/tmp/project"));
    assert_eq!(r, "/tmp/project");
    let r = resolve_project_root(Some(""), Some(" \n"), String::from("/tmp/project"));
    assert_eq!(r, "/tmp/project");
}

#[test]
fn diagnostic_tail_trims_and_strips_carriage_returns() {
    assert_eq!(diagnostic_tail(b"  error line\r\n"), b"error line".to_vec());
    assert_eq!(diagnostic_tail(b""), Vec::<u8>::new());
    assert_eq!(diagnostic_tail(b" \r\n \t"), Vec::<u8>::new());
}

#[test]
fn diagnostic_tail_keeps_only_the_last_part_of_long_output() {
    let mut long = vec![b'a'; 650];
    long.extend_from_slice(b"tail end");
    let tail = diagnostic_tail(&long);
    assert!(tail.starts_with(b"..."));
    assert_eq!(tail.len(), 603);
    assert!(tail.ends_with(b"tail end"));
}
