use task_runner::shell::{
    command_flag, default_shell, fallback_program, parse_shell_config, shell_variable,
    uses_default_shell, Platform,
};

fn strings(items: &[&str]) -> Vec<String> {
    items.iter().map(|s| s.to_string()).collect()
}

#[test]
fn posix_names() {
    assert_eq!(shell_variable(Platform::Posix), "SHELL");
    assert_eq!(fallback_program(Platform::Posix), "/bin/sh");
    assert_eq!(command_flag(Platform::Posix), "-c");
}

#[test]
fn windows_names() {
    assert_eq!(shell_variable(Platform::Windows), "COMSPEC");
    assert_eq!(fallback_program(Platform::Windows), "cmd.exe");
    assert_eq!(command_flag(Platform::Windows), "/c");
}

#[test]
fn default_shell_posix_unset() {
    assert_eq!(default_shell(Platform::Posix, None), strings(&["/bin/sh", "-c"]));
}

#[test]
fn default_shell_posix_from_environment() {
    assert_eq!(
        default_shell(Platform::Posix, Some("/usr/bin/zsh".to_string())),
        strings(&["/usr/bin/zsh", "-c"])
    );
}

#[test]
fn default_shell_windows_unset() {
    assert_eq!(default_shell(Platform::Windows, None), strings(&["cmd.exe", "/c"]));
}

#[test]
fn default_shell_windows_from_environment() {
    assert_eq!(
        default_shell(Platform::Windows, Some("C:\\Windows\\System32\\cmd.exe".to_string())),
        strings(&["C:\\Windows\\System32\\cmd.exe", "/c"])
    );
}

#[test]
fn default_shell_keeps_an_empty_value() {
    assert_eq!(default_shell(Platform::Posix, Some(String::new())), strings(&["", "-c"]));
}

#[test]
fn absent_configuration_needs_the_default() {
    assert!(uses_default_shell(&None));
}

#[test]
fn empty_configuration_needs_the_default() {
    assert!(uses_default_shell(&Some(Vec::new())));
}

#[test]
fn given_configuration_needs_no_default() {
    assert!(!uses_default_shell(&Some(strings(&["bash"]))));
    assert!(!uses_default_shell(&Some(strings(&[""]))));
}

#[test]
fn parse_absent_configuration() {
    let (program, args) = parse_shell_config(None, Platform::Posix, None);
    assert_eq!(program, "/bin/sh");
    assert_eq!(args, strings(&["-c"]));
}

#[test]
fn parse_absent_configuration_with_environment() {
    let (program, args) =
        parse_shell_config(None, Platform::Posix, Some("/bin/bash".to_string()));
    assert_eq!(program, "/bin/bash");
    assert_eq!(args, strings(&["-c"]));
}

#[test]
fn parse_empty_configuration_is_replaced() {
    let (program, args) =
        parse_shell_config(Some(Vec::new()), Platform::Windows, Some("pwsh.exe".to_string()));
    assert_eq!(program, "pwsh.exe");
    assert_eq!(args, strings(&["/c"]));
    let (program, args) = parse_shell_config(Some(Vec::new()), Platform::Windows, None);
    assert_eq!(program, "cmd.exe");
    assert_eq!(args, strings(&["/c"]));
}

#[test]
fn parse_single_element_has_no_arguments() {
    let (program, args) = parse_shell_config(
        Some(strings(&["bash"])),
        Platform::Posix,
        Some("/bin/zsh".to_string()),
    );
    assert_eq!(program, "bash");
    assert_eq!(args, Vec::<String>::new());
}

#[test]
fn parse_keeps_the_order_of_arguments() {
    let (program, args) = parse_shell_config(
        Some(strings(&["/usr/bin/env", "bash", "--noprofile", "-e", "-c"])),
        Platform::Posix,
        None,
    );
    assert_eq!(program, "/usr/bin/env");
    assert_eq!(args, strings(&["bash", "--noprofile", "-e", "-c"]));
}

#[test]
fn parse_given_configuration_ignores_platform_and_environment() {
    let config = strings(&["fish", "-c"]);
    let posix = parse_shell_config(Some(config.clone()), Platform::Posix, None);
    let windows =
        parse_shell_config(Some(config), Platform::Windows, Some("cmd.exe".to_string()));
    assert_eq!(posix, windows);
    assert_eq!(posix, ("fish".to_string(), strings(&["-c"])));
}
