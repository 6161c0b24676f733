use pollcore::shell::get_default_shell;
use pollcore::shell::get_login_shell_args;
use pollcore::shell::get_shell_command_args;
use pollcore::shell::is_wsl_available;
use pollcore::shell::windows_to_wsl_path;

#[test]
fn default_shell_from_environment() {
    assert_eq!(get_default_shell(Some("/bin/zsh".to_string())), "/bin/zsh");
    assert_eq!(get_default_shell(None), "/bin/sh");
}

#[test]
fn shell_command_args_shape() {
    let (shell, args) = get_shell_command_args(Some("/bin/bash".to_string()), "echo hi");
    assert_eq!(shell, "/bin/bash");
    assert_eq!(args, vec!["-c".to_string(), "echo hi".to_string()]);
}

#[test]
fn login_shell_args_shape() {
    let (shell, args) = get_login_shell_args(None, "ls");
    assert_eq!(shell, "/bin/sh");
    assert_eq!(
        args,
        vec!["-l".to_string(), "-i".to_string(), "-c".to_string(), "ls".to_string()]
    );
}

#[test]
fn wsl_never_available_on_posix() {
    assert!(!is_wsl_available());
}

#[test]
fn wsl_path_with_drive() {
    assert_eq!(
        windows_to_wsl_path("C:\\Users\\foo\\file.txt"),
        "/mnt/c/Users/foo/file.txt"
    );
}

#[test]
fn wsl_path_keeps_lowercase_drive() {
    assert_eq!(windows_to_wsl_path("d:\\data"), "/mnt/d/data");
}

#[test]
fn wsl_path_without_drive_only_translates_separators() {
    assert_eq!(windows_to_wsl_path("foo\\bar\\baz"), "foo/bar/baz");
    assert_eq!(windows_to_wsl_path("/already/unix"), "/already/unix");
}

#[test]
fn wsl_path_edge_cases() {
    assert_eq!(windows_to_wsl_path(""), "");
    assert_eq!(windows_to_wsl_path("C"), "C");
    assert_eq!(windows_to_wsl_path("C:"), "/mnt/c");
}
