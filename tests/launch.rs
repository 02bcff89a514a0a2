use neovide_launch::bridge::{
    base_args, create_nvim_command, exists_probe_command, needs_discovery, platform_exists,
    platform_which, resolve_binary, which_probe_command, wsl_distro_to_check, LaunchConfig,
    LaunchError, LaunchWarning, ProbeFacts, ShellProbe, StderrMode, WhichStep,
};
use neovide_launch::shell::{
    create_platform_shell_command, nvim_cmd_impl, CommandLine, HostEnv, Platform,
    CREATE_NO_WINDOW,
};
use neovide_launch::text::join_with_space;
use neovide_launch::wsl::{text_has_line, wsl_list_contains};

fn strings(items: &[&str]) -> Vec<String> {
    items.iter().map(|s| s.to_string()).collect()
}

fn host(platform: Platform, shell: Option<&str>, term_set: bool) -> HostEnv {
    HostEnv { platform, shell: shell.map(|s| s.to_string()), term_set }
}

fn config(bin: Option<&str>, args: &[&str], wsl: bool, distro: Option<&str>) -> LaunchConfig {
    LaunchConfig {
        neovim_bin: bin.map(|s| s.to_string()),
        neovim_args: strings(args),
        wsl,
        wsl_distro: distro.map(|s| s.to_string()),
    }
}

fn facts(explicit_exists: bool, discovered: Option<&str>, distro_present: bool) -> ProbeFacts {
    ProbeFacts { explicit_exists, discovered: discovered.map(|s| s.to_string()), distro_present }
}

fn utf16le(text: &str) -> Vec<u8> {
    text.encode_utf16().flat_map(|u| u.to_le_bytes()).collect()
}

fn parts(c: &CommandLine) -> (String, Vec<String>, u32) {
    (c.program.clone(), c.args.clone(), c.creation_flags)
}

#[test]
fn plain_host_launch_spec() {
    let h = host(Platform::Other, None, false);
    let c = config(None, &["--", "file.txt"], false, None);
    let spec = create_nvim_command(&h, &c, &facts(false, Some("/usr/bin/nvim"), false), false).unwrap();
    assert_eq!(spec.command.program, "/usr/bin/nvim");
    assert_eq!(spec.command.args, strings(&["--embed", "--", "file.txt"]));
    assert_eq!(spec.command.creation_flags, 0);
    assert_eq!(spec.stderr, StderrMode::Piped);
    assert!(spec.warnings.is_empty());
}

#[test]
fn debug_build_inherits_stderr() {
    let h = host(Platform::Other, None, false);
    let c = config(None, &[], false, None);
    let spec = create_nvim_command(&h, &c, &facts(false, Some("nvim"), false), true).unwrap();
    assert_eq!(spec.stderr, StderrMode::Inherit);
    assert_eq!(spec.command.args, strings(&["--embed"]));
}

#[test]
fn base_args_lead_with_embed() {
    assert_eq!(base_args(&strings(&[])), strings(&["--embed"]));
    assert_eq!(base_args(&strings(&["-u", "NONE", "a b"])), strings(&["--embed", "-u", "NONE", "a b"]));
}

#[test]
fn embed_flag_leads_on_every_host() {
    let extra = &["--clean", "x"];
    let f = facts(false, Some("nvim"), true);
    let other = create_nvim_command(&host(Platform::Other, None, false), &config(None, extra, false, None), &f, false)
        .unwrap();
    assert_eq!(other.command.args, strings(&["--embed", "--clean", "x"]));
    let win = create_nvim_command(&host(Platform::Windows, None, false), &config(None, extra, true, None), &f, false)
        .unwrap();
    assert_eq!(win.command.args.last().unwrap(), "nvim --embed --clean x");
    let mac = create_nvim_command(&host(Platform::MacOs, Some("/bin/zsh"), true), &config(None, extra, false, None), &f, false)
        .unwrap();
    assert_eq!(mac.command.args, strings(&["-c", "nvim --embed --clean x"]));
}

#[test]
fn other_host_is_not_wrapped() {
    let h = host(Platform::Other, Some("/bin/zsh"), false);
    assert!(create_platform_shell_command(&h, true, "which", &strings(&["nvim"])).is_none());
    let c = nvim_cmd_impl(&h, true, &Some("Ubuntu".to_string()), true, "nvim", &strings(&["a b", "c"]));
    assert_eq!(parts(&c), ("nvim".to_string(), strings(&["a b", "c"]), 0));
}

#[test]
fn windows_without_bridge_is_not_wrapped() {
    let h = host(Platform::Windows, None, false);
    assert!(create_platform_shell_command(&h, false, "which", &strings(&["nvim"])).is_none());
    let c = nvim_cmd_impl(&h, false, &None, false, "C:\\nvim.exe", &strings(&["--embed"]));
    assert_eq!(parts(&c), ("C:\\nvim.exe".to_string(), strings(&["--embed"]), 0));
}

#[test]
fn macos_without_term_adds_login_flag() {
    let h = host(Platform::MacOs, None, false);
    let c = create_platform_shell_command(&h, false, "which", &strings(&["nvim"])).unwrap();
    assert_eq!(parts(&c), ("/bin/sh".to_string(), strings(&["-l", "-c", "which nvim"]), 0));
}

#[test]
fn macos_with_term_has_no_login_flag() {
    let h = host(Platform::MacOs, Some("/bin/fish"), true);
    let c = create_platform_shell_command(&h, false, "which", &strings(&["nvim"])).unwrap();
    assert_eq!(parts(&c), ("/bin/fish".to_string(), strings(&["-c", "which nvim"]), 0));
}

#[test]
fn macos_launch_quotes_arguments() {
    let h = host(Platform::MacOs, Some("/bin/zsh"), false);
    let c = nvim_cmd_impl(&h, false, &None, false, "/opt/nvim", &strings(&["--embed", "my file.txt"]));
    assert_eq!(c.program, "/bin/zsh");
    assert_eq!(c.args, strings(&["-l", "-c", "/opt/nvim --embed 'my file.txt'"]));
}

#[test]
fn wsl_shell_command_joins_without_quoting() {
    let h = host(Platform::Windows, None, false);
    let c = create_platform_shell_command(&h, true, "exists", &strings(&["-x", "/usr/bin/my nvim"])).unwrap();
    assert_eq!(
        parts(&c),
        ("wsl".to_string(), strings(&["$SHELL", "-lc", "exists -x /usr/bin/my nvim"]), CREATE_NO_WINDOW)
    );
}

#[test]
fn shell_command_with_no_args_keeps_trailing_space() {
    let h = host(Platform::MacOs, None, true);
    let c = create_platform_shell_command(&h, false, "true", &strings(&[])).unwrap();
    assert_eq!(c.args, strings(&["-c", "true "]));
}

#[test]
fn wsl_launch_with_installed_distro() {
    let h = host(Platform::Windows, None, false);
    let c = config(None, &["file.txt"], true, Some("Debian"));
    let spec = create_nvim_command(&h, &c, &facts(false, Some("/usr/bin/nvim"), true), false).unwrap();
    assert_eq!(spec.command.program, "wsl");
    assert_eq!(spec.command.args, strings(&["-d", "Debian", "$SHELL", "-lc", "/usr/bin/nvim --embed file.txt"]));
    assert_eq!(spec.command.creation_flags, CREATE_NO_WINDOW);
    assert!(spec.warnings.is_empty());
}

#[test]
fn wsl_launch_with_missing_distro_falls_back() {
    let listing = utf16le("Ubuntu\r\nDebian\r\n");
    let present = wsl_list_contains(&listing, "Arch");
    assert!(!present);
    let h = host(Platform::Windows, None, false);
    let c = config(None, &[], true, Some("Arch"));
    let spec = create_nvim_command(&h, &c, &facts(false, Some("/usr/bin/nvim"), present), false).unwrap();
    assert_eq!(spec.command.args, strings(&["$SHELL", "-lc", "/usr/bin/nvim --embed"]));
    assert_eq!(spec.warnings, vec![LaunchWarning::DistroNotFound]);
}

#[test]
fn invalid_explicit_path_uses_discovery() {
    let h = host(Platform::Other, None, false);
    let c = config(Some("/nope/nvim"), &[], false, None);
    let spec = create_nvim_command(&h, &c, &facts(false, Some("/usr/bin/nvim"), false), false).unwrap();
    assert_eq!(spec.command.program, "/usr/bin/nvim");
    assert_eq!(spec.warnings, vec![LaunchWarning::InvalidBinaryPath]);
}

#[test]
fn invalid_explicit_path_without_discovery_is_fatal() {
    let h = host(Platform::Other, None, false);
    let c = config(Some("/nope/nvim"), &[], false, None);
    let r = create_nvim_command(&h, &c, &facts(false, None, false), false);
    assert_eq!(r.err(), Some(LaunchError::BinaryNotFound));
}

#[test]
fn valid_explicit_path_is_used() {
    let h = host(Platform::Other, None, false);
    let c = config(Some("/opt/nvim"), &[], false, None);
    let spec = create_nvim_command(&h, &c, &facts(true, Some("/usr/bin/nvim"), false), false).unwrap();
    assert_eq!(spec.command.program, "/opt/nvim");
    assert!(spec.warnings.is_empty());
}

#[test]
fn resolve_binary_choices() {
    assert_eq!(resolve_binary(&Some("a".to_string()), true, &Some("b".to_string())).unwrap(), "a");
    assert_eq!(resolve_binary(&Some("a".to_string()), false, &Some("b".to_string())).unwrap(), "b");
    assert_eq!(resolve_binary(&None, true, &Some("b".to_string())).unwrap(), "b");
    assert_eq!(resolve_binary(&None, false, &None).err(), Some(LaunchError::BinaryNotFound));
}

#[test]
fn discovery_needed_only_without_valid_path() {
    assert!(!needs_discovery(&Some("a".to_string()), true));
    assert!(needs_discovery(&Some("a".to_string()), false));
    assert!(needs_discovery(&None, true));
}

#[test]
fn exists_verdicts() {
    assert!(platform_exists(&ShellProbe::NoCommand, true));
    assert!(!platform_exists(&ShellProbe::NoCommand, false));
    assert!(!platform_exists(&ShellProbe::SpawnFailed, true));
    assert!(!platform_exists(&ShellProbe::Exited { success: false, stdout: vec![] }, true));
    assert!(platform_exists(&ShellProbe::Exited { success: true, stdout: vec![] }, false));
}

#[test]
fn exists_probe_only_on_windows_bridge() {
    let win = host(Platform::Windows, None, false);
    let c = exists_probe_command(&win, true, "/usr/bin/nvim").unwrap();
    assert_eq!(c.args, strings(&["$SHELL", "-lc", "exists -x /usr/bin/nvim"]));
    assert!(exists_probe_command(&win, false, "nvim").is_none());
    assert!(exists_probe_command(&host(Platform::MacOs, None, false), true, "nvim").is_none());
}

#[test]
fn which_probe_per_host() {
    let mac = which_probe_command(&host(Platform::MacOs, None, true), false).unwrap();
    assert_eq!(mac.args, strings(&["-c", "which nvim"]));
    assert!(which_probe_command(&host(Platform::Other, None, true), false).is_none());
}

#[test]
fn which_output_is_trimmed() {
    let probe = ShellProbe::Exited { success: true, stdout: b"  /usr/local/bin/nvim\n".to_vec() };
    match platform_which(probe) {
        WhichStep::Found(p) => assert_eq!(p, "/usr/local/bin/nvim"),
        _ => panic!("expected a path"),
    }
}

#[test]
fn which_failures() {
    assert!(matches!(platform_which(ShellProbe::Exited { success: false, stdout: b"x".to_vec() }), WhichStep::NotFound));
    assert!(matches!(platform_which(ShellProbe::Exited { success: true, stdout: vec![0xff, 0xfe] }), WhichStep::NotFound));
    assert!(matches!(platform_which(ShellProbe::NoCommand), WhichStep::UseFallback));
    assert!(matches!(platform_which(ShellProbe::SpawnFailed), WhichStep::UseFallback));
}

#[test]
fn distro_check_only_when_bridging() {
    let c = config(None, &[], true, Some("Debian"));
    assert_eq!(wsl_distro_to_check(&host(Platform::Windows, None, false), &c), Some("Debian".to_string()));
    assert_eq!(wsl_distro_to_check(&host(Platform::Other, None, false), &c), None);
    let off = config(None, &[], false, Some("Debian"));
    assert_eq!(wsl_distro_to_check(&host(Platform::Windows, None, false), &off), None);
}

#[test]
fn wsl_listing_lookup() {
    let listing = utf16le("Ubuntu\r\nDebian\r\n");
    assert!(wsl_list_contains(&listing, "Ubuntu"));
    assert!(wsl_list_contains(&listing, "Debian"));
    assert!(!wsl_list_contains(&listing, "Deb"));
    assert!(!wsl_list_contains(&listing, ""));
    assert!(wsl_list_contains(&utf16le("Alpine"), "Alpine"));
    assert!(wsl_list_contains(&utf16le("a\n\nb"), ""));
    assert!(wsl_list_contains(&utf16le("Ubuntu\r\nArch\u{1F600}\r\n"), "Arch\u{1F600}"));
    assert!(!wsl_list_contains(&utf16le("Arch\u{1F600}\r\n"), "Arch"));
}

#[test]
fn wsl_listing_malformed() {
    let mut odd = utf16le("Ubuntu\n");
    odd.push(0);
    assert!(!wsl_list_contains(&odd, "Ubuntu"));
    let mut bad = utf16le("Ubuntu\n");
    bad.extend_from_slice(&[0x00, 0xd8]);
    assert!(!wsl_list_contains(&bad, "Ubuntu"));
    assert!(!wsl_list_contains(&vec![], ""));
}

#[test]
fn lines_split_like_str_lines() {
    assert!(text_has_line("a\r\nb", "a"));
    assert!(text_has_line("a\rb\nc", "a\rb"));
    assert!(text_has_line("tail\r", "tail\r"));
    assert!(!text_has_line("tail\r", "tail"));
    assert!(!text_has_line("", ""));
    assert!(text_has_line("\n", ""));
}

#[test]
fn join_with_spaces() {
    assert_eq!(join_with_space(&strings(&[])), "");
    assert_eq!(join_with_space(&strings(&["a"])), "a");
    assert_eq!(join_with_space(&strings(&["a", "b c", "d"])), "a b c d");
}
