use vstd::prelude::*;
use vstd::utf8::{decode_utf8, valid_utf8};

use crate::shell::{
    create_platform_shell_command, nvim_cmd_impl, nvim_command_spec, opt_view,
    platform_shell_command_spec, wraps_in_wsl, CommandLine, CommandView, HostEnv, Platform,
    CREATE_NO_WINDOW,
};
use crate::text::{command_text, extend_strings, views};

verus! {

/// The settings that decide how the editor is launched.
pub struct LaunchConfig {
    /// A binary chosen by the user, used only if it exists.
    pub neovim_bin: Option<String>,
    /// Extra arguments passed on after the embedding flag, in order.
    pub neovim_args: Vec<String>,
    /// Whether to run the editor inside the Linux subsystem (Windows hosts).
    pub wsl: bool,
    /// The subsystem distribution to run it in, if not the default one.
    pub wsl_distro: Option<String>,
}

/// What the host reported for the probes a launch depends on.
pub struct ProbeFacts {
    /// Whether the configured binary was found (ignored when none is set).
    pub explicit_exists: bool,
    /// The binary found by discovery, if any.
    pub discovered: Option<String>,
    /// Whether the configured distribution is installed.
    pub distro_present: bool,
}

/// How a helper probe run through the host's shell went.
pub enum ShellProbe {
    /// The host has no shell helper for this probe.
    NoCommand,
    /// The helper could not be started.
    SpawnFailed,
    /// The helper ran and exited.
    Exited { success: bool, stdout: Vec<u8> },
}

/// What a `which` probe found out.
pub enum WhichStep {
    Found(String),
    NotFound,
    /// The probe could not be made; search `PATH` directly instead.
    UseFallback,
}

/// Where the child's error stream goes.
#[derive(Clone, Copy, Debug, PartialEq, Eq, Structural)]
pub enum StderrMode {
    Inherit,
    Piped,
}

/// A fallback taken on the way to a launch, to be reported as a warning.
#[derive(Clone, Copy, Debug, PartialEq, Eq, Structural)]
pub enum LaunchWarning {
    /// The configured binary does not exist; discovery was used instead.
    InvalidBinaryPath,
    /// The configured distribution is not installed; the default one is used.
    DistroNotFound,
}

/// A failure that leaves nothing to launch.
#[derive(Clone, Copy, Debug, PartialEq, Eq, Structural)]
pub enum LaunchError {
    /// No editor binary could be found anywhere.
    BinaryNotFound,
}

/// Everything needed to spawn the editor.
pub struct LaunchSpec {
    pub command: CommandLine,
    pub stderr: StderrMode,
    pub warnings: Vec<LaunchWarning>,
}

/// The argument list before any wrapping: the embedding flag, then the
/// configured extra arguments unchanged.
pub open spec fn base_args_spec(extra: Seq<Seq<char>>) -> Seq<Seq<char>> {
    seq!["--embed"@] + extra
}

/// The binary to launch: the configured one if it exists, else the
/// discovered one.
pub open spec fn resolved_binary(
    explicit: Option<Seq<char>>,
    explicit_exists: bool,
    discovered: Option<Seq<char>>,
) -> Option<Seq<char>> {
    match explicit {
        Some(p) => if explicit_exists {
            Some(p)
        } else {
            discovered
        },
        None => discovered,
    }
}

/// Whether a configured distribution is dropped for the default one.
pub open spec fn distro_falls_back(host: &HostEnv, config: &LaunchConfig, distro_present: bool) -> bool {
    wraps_in_wsl(host, config.wsl) && config.wsl_distro is Some && !distro_present
}

/// The flags the editor process is created with.
pub open spec fn spawn_flags(host: &HostEnv) -> u32 {
    if host.platform == Platform::Windows {
        CREATE_NO_WINDOW
    } else {
        0
    }
}

/// The command that starts the editor, or `None` where no binary is found.
pub open spec fn launch_command(host: &HostEnv, config: &LaunchConfig, facts: &ProbeFacts) -> Option<
    CommandView,
> {
    match resolved_binary(
        opt_view(&config.neovim_bin),
        facts.explicit_exists,
        opt_view(&facts.discovered),
    ) {
        Some(bin) => {
            let v = nvim_command_spec(
                host,
                config.wsl,
                opt_view(&config.wsl_distro),
                facts.distro_present,
                bin,
                base_args_spec(views(config.neovim_args@)),
            );
            Some(CommandView { program: v.program, args: v.args, creation_flags: spawn_flags(host) })
        },
        None => None,
    }
}

/// The warnings of a launch, in the order the fallbacks are taken.
pub open spec fn launch_warnings(host: &HostEnv, config: &LaunchConfig, facts: &ProbeFacts) -> Seq<
    LaunchWarning,
> {
    (if config.neovim_bin is Some && !facts.explicit_exists {
        seq![LaunchWarning::InvalidBinaryPath]
    } else {
        Seq::empty()
    }) + (if distro_falls_back(host, config, facts.distro_present) {
        seq![LaunchWarning::DistroNotFound]
    } else {
        Seq::empty()
    })
}

/// The name searched for when no binary is configured.
pub fn default_binary_name() -> (r: String)
    ensures
        r@ == "nvim"@,
{
    String::from_str("nvim")
}

/// The shell probe that asks whether `bin` is executable. Only Windows hosts
/// have one, and only when commands go through the subsystem bridge;
/// elsewhere the file system is asked directly.
pub fn exists_probe_command(host: &HostEnv, wsl: bool, bin: &str) -> (r: Option<CommandLine>)
    ensures
        host.platform == Platform::Windows ==> match r {
            Some(c) => platform_shell_command_spec(host, wsl, "exists"@, seq!["-x"@, bin@]) == Some(
                c@,
            ),
            None => platform_shell_command_spec(host, wsl, "exists"@, seq!["-x"@, bin@]) is None,
        },
        host.platform != Platform::Windows ==> r is None,
{
    if host.platform == Platform::Windows {
        let mut args: Vec<String> = Vec::new();
        args.push(String::from_str("-x"));
        args.push(String::from_str(bin));
        assert(views(args@) =~= seq!["-x"@, bin@]);
        create_platform_shell_command(host, wsl, "exists", &args)
    } else {
        None
    }
}

/// Whether a binary exists, from the shell probe if the host has one, else
/// from the file system. A probe that cannot be started counts as not
/// found, so that discovery follows.
pub fn platform_exists(probe: &ShellProbe, path_exists: bool) -> (r: bool)
    ensures
        match probe {
            ShellProbe::NoCommand => r == path_exists,
            ShellProbe::SpawnFailed => r == false,
            ShellProbe::Exited { success, .. } => r == *success,
        },
{
    match probe {
        ShellProbe::NoCommand => path_exists,
        ShellProbe::SpawnFailed => false,
        ShellProbe::Exited { success, .. } => *success,
    }
}

/// The shell probe that looks the default binary up in the user's shell.
pub fn which_probe_command(host: &HostEnv, wsl: bool) -> (r: Option<CommandLine>)
    ensures
        match r {
            Some(c) => platform_shell_command_spec(host, wsl, "which"@, seq!["nvim"@]) == Some(c@),
            None => platform_shell_command_spec(host, wsl, "which"@, seq!["nvim"@]) is None,
        },
{
    let mut args: Vec<String> = Vec::new();
    args.push(default_binary_name());
    assert(views(args@) =~= seq!["nvim"@]);
    create_platform_shell_command(host, wsl, "which", &args)
}

/// Names what `str::trim` makes of a text.
pub uninterp spec fn trimmed(s: Seq<char>) -> Seq<char>;

/// Relies on `String::from_utf8`: succeeds exactly on valid UTF-8, with the
/// decoded characters.
#[verifier::external_body]
fn decode_utf8_text(bytes: Vec<u8>) -> (r: Option<String>)
    ensures
        r is Some <==> valid_utf8(bytes@),
        r is Some ==> r.unwrap()@ == decode_utf8(bytes@),
{
    String::from_utf8(bytes).ok()
}

/// `part` is a contiguous run of the characters of `whole`.
pub open spec fn is_part_of(part: Seq<char>, whole: Seq<char>) -> bool {
    exists|i: int, j: int| 0 <= i <= j <= whole.len() && part == whole.subrange(i, j)
}

/// Relies on `str::trim`: drops leading and trailing white space, leaving
/// a contiguous part of the text.
#[verifier::external_body]
fn trim_text(s: &str) -> (r: String)
    ensures
        r@ == trimmed(s@),
        is_part_of(r@, s@),
{
    s.trim().to_string()
}

/// Reads the outcome of a `which` probe: a successful run names the binary
/// on its output, trimmed; a failed run or unreadable output finds nothing;
/// a probe that could not be made sends the search to `PATH`.
pub fn platform_which(probe: ShellProbe) -> (r: WhichStep)
    ensures
        match probe {
            ShellProbe::NoCommand => r is UseFallback,
            ShellProbe::SpawnFailed => r is UseFallback,
            ShellProbe::Exited { success, stdout } => if success && valid_utf8(stdout@) {
                r matches WhichStep::Found(p) && p@ == trimmed(decode_utf8(stdout@)) && is_part_of(
                    p@,
                    decode_utf8(stdout@),
                )
            } else {
                r is NotFound
            },
        },
{
    match probe {
        ShellProbe::NoCommand => WhichStep::UseFallback,
        ShellProbe::SpawnFailed => WhichStep::UseFallback,
        ShellProbe::Exited { success, stdout } => {
            if !success {
                return WhichStep::NotFound;
            }
            match decode_utf8_text(stdout) {
                Some(text) => WhichStep::Found(trim_text(text.as_str())),
                None => WhichStep::NotFound,
            }
        },
    }
}

/// Whether discovery must run: the configured binary is missing or absent.
pub fn needs_discovery(explicit: &Option<String>, explicit_exists: bool) -> (r: bool)
    ensures
        r == !(explicit is Some && explicit_exists),
{
    !(explicit.is_some() && explicit_exists)
}

/// The distribution whose presence must be checked before launching, if any.
pub fn wsl_distro_to_check(host: &HostEnv, config: &LaunchConfig) -> (r: Option<String>)
    ensures
        wraps_in_wsl(host, config.wsl) ==> r == config.wsl_distro,
        !wraps_in_wsl(host, config.wsl) ==> r is None,
{
    if host.platform == Platform::Windows && config.wsl {
        config.wsl_distro.clone()
    } else {
        None
    }
}

/// The argument list before any wrapping: `--embed`, then `extra`.
pub fn base_args(extra: &Vec<String>) -> (r: Vec<String>)
    ensures
        views(r@) == base_args_spec(views(extra@)),
{
    let mut r: Vec<String> = Vec::new();
    r.push(String::from_str("--embed"));
    let ghost first = views(r@);
    extend_strings(&mut r, extra);
    assert(first =~= seq!["--embed"@]);
    r
}

/// Picks the binary to launch: the configured one if it exists, else the
/// discovered one; with neither there is nothing to launch.
pub fn resolve_binary(explicit: &Option<String>, explicit_exists: bool, discovered: &Option<String>) -> (r:
    Result<String, LaunchError>)
    ensures
        match resolved_binary(opt_view(explicit), explicit_exists, opt_view(discovered)) {
            Some(b) => r matches Ok(s) && s@ == b,
            None => r == Err::<String, LaunchError>(LaunchError::BinaryNotFound),
        },
{
    match explicit {
        Some(p) => {
            if explicit_exists {
                return Ok(p.clone());
            }
        },
        None => {},
    }
    match discovered {
        Some(d) => Ok(d.clone()),
        None => Err(LaunchError::BinaryNotFound),
    }
}

/// The command that starts `bin` with the embedding flag and the configured
/// arguments, wrapped as the host needs.
pub fn build_nvim_cmd_with_args(host: &HostEnv, config: &LaunchConfig, distro_present: bool, bin: &str) -> (r:
    CommandLine)
    ensures
        r@ == nvim_command_spec(
            host,
            config.wsl,
            opt_view(&config.wsl_distro),
            distro_present,
            bin@,
            base_args_spec(views(config.neovim_args@)),
        ),
{
    let args = base_args(&config.neovim_args);
    nvim_cmd_impl(host, config.wsl, &config.wsl_distro, distro_present, bin, &args)
}

/// The warnings for the fallbacks a launch takes.
fn collect_warnings(host: &HostEnv, config: &LaunchConfig, facts: &ProbeFacts) -> (r: Vec<
    LaunchWarning,
>)
    ensures
        r@ == launch_warnings(host, config, facts),
{
    let mut r: Vec<LaunchWarning> = Vec::new();
    if config.neovim_bin.is_some() && !facts.explicit_exists {
        r.push(LaunchWarning::InvalidBinaryPath);
    }
    if host.platform == Platform::Windows && config.wsl && config.wsl_distro.is_some()
        && !facts.distro_present {
        r.push(LaunchWarning::DistroNotFound);
    }
    assert(r@ =~= launch_warnings(host, config, facts));
    r
}

/// Resolves the binary and builds the command that starts it, with the
/// warnings for the fallbacks taken; fails when no binary is found.
pub fn build_nvim_cmd(host: &HostEnv, config: &LaunchConfig, facts: &ProbeFacts) -> (r: Result<
    (CommandLine, Vec<LaunchWarning>),
    LaunchError,
>)
    ensures
        match launch_command(host, config, facts) {
            Some(v) => r matches Ok((c, w)) && c@.program == v.program && c@.args == v.args
                && c@.creation_flags == 0 && w@ == launch_warnings(host, config, facts),
            None => r matches Err(e) && e == LaunchError::BinaryNotFound,
        },
{
    let bin = match resolve_binary(&config.neovim_bin, facts.explicit_exists, &facts.discovered) {
        Ok(b) => b,
        Err(e) => return Err(e),
    };
    let command = build_nvim_cmd_with_args(host, config, facts.distro_present, bin.as_str());
    Ok((command, collect_warnings(host, config, facts)))
}

/// Describes how to spawn the editor: the resolved and wrapped command, the
/// process creation flags of the host, and the error stream inherited in a
/// development build and captured otherwise. Fails only when no binary is
/// found.
pub fn create_nvim_command(host: &HostEnv, config: &LaunchConfig, facts: &ProbeFacts, debug_build: bool) -> (r:
    Result<LaunchSpec, LaunchError>)
    ensures
        match launch_command(host, config, facts) {
            Some(v) => r matches Ok(spec) && spec.command@ == v && spec.warnings@ == launch_warnings(
                host,
                config,
                facts,
            ) && spec.stderr == (if debug_build {
                StderrMode::Inherit
            } else {
                StderrMode::Piped
            }),
            None => r matches Err(e) && e == LaunchError::BinaryNotFound,
        },
{
    let (command, warnings) = match build_nvim_cmd(host, config, facts) {
        Ok(built) => built,
        Err(e) => return Err(e),
    };
    let flags: u32 = if host.platform == Platform::Windows {
        CREATE_NO_WINDOW
    } else {
        0
    };
    let stderr = if debug_build {
        StderrMode::Inherit
    } else {
        StderrMode::Piped
    };
    let command = CommandLine { program: command.program, args: command.args, creation_flags: flags };
    Ok(LaunchSpec { command, stderr, warnings })
}

/// On every host the editor receives the embedding flag followed by exactly
/// the configured arguments, in order: unwrapped as the argument list,
/// wrapped as the text after the binary's name.
pub proof fn lemma_base_args_lead(host: &HostEnv, config: &LaunchConfig, facts: &ProbeFacts)
    requires
        launch_command(host, config, facts) is Some,
    ensures
        base_args_spec(views(config.neovim_args@))[0] == "--embed"@,
        base_args_spec(views(config.neovim_args@)).len() == config.neovim_args@.len() + 1 as int,
        base_args_spec(views(config.neovim_args@)).subrange(
            1,
            config.neovim_args@.len() + 1 as int,
        ) == views(config.neovim_args@),
        ({
            let v = launch_command(host, config, facts).unwrap();
            let bin = resolved_binary(
                opt_view(&config.neovim_bin),
                facts.explicit_exists,
                opt_view(&facts.discovered),
            ).unwrap();
            let base = base_args_spec(views(config.neovim_args@));
            &&& host.platform == Platform::Other ==> v.args == base
            &&& (host.platform == Platform::Windows && !config.wsl) ==> v.args == base
            &&& wraps_in_wsl(host, config.wsl) ==> v.args.last() == command_text(bin, base)
        }),
{
    let base = base_args_spec(views(config.neovim_args@));
    assert(base.subrange(1, config.neovim_args@.len() + 1 as int) =~= views(config.neovim_args@));
}

/// On a Windows host that bridges to the subsystem, a configured
/// distribution that is not installed is dropped: the bridge gets no
/// distribution selector, and the fallback is reported as a warning, not a
/// failure.
pub proof fn lemma_missing_distro_falls_back(host: &HostEnv, config: &LaunchConfig, facts: &ProbeFacts)
    requires
        host.platform == Platform::Windows,
        config.wsl,
        config.wsl_distro is Some,
        !facts.distro_present,
        resolved_binary(
            opt_view(&config.neovim_bin),
            facts.explicit_exists,
            opt_view(&facts.discovered),
        ) is Some,
    ensures
        launch_command(host, config, facts) is Some,
        ({
            let v = launch_command(host, config, facts).unwrap();
            let bin = resolved_binary(
                opt_view(&config.neovim_bin),
                facts.explicit_exists,
                opt_view(&facts.discovered),
            ).unwrap();
            &&& v.program == "wsl"@
            &&& v.args == seq![
                "$SHELL"@,
                "-lc"@,
                command_text(bin, base_args_spec(views(config.neovim_args@))),
            ]
        }),
        launch_warnings(host, config, facts).contains(LaunchWarning::DistroNotFound),
{
    let bin = resolved_binary(
        opt_view(&config.neovim_bin),
        facts.explicit_exists,
        opt_view(&facts.discovered),
    ).unwrap();
    let t = command_text(bin, base_args_spec(views(config.neovim_args@)));
    assert(Seq::<Seq<char>>::empty() + seq!["$SHELL"@, "-lc"@, t] =~= seq!["$SHELL"@, "-lc"@, t]);
    let w = launch_warnings(host, config, facts);
    assert(w[w.len() - 1] == LaunchWarning::DistroNotFound);
}

/// A configured binary that does not exist sends resolution to discovery;
/// when discovery finds nothing as well, there is nothing to launch.
pub proof fn lemma_invalid_path_falls_to_discovery(host: &HostEnv, config: &LaunchConfig, facts: &ProbeFacts)
    requires
        config.neovim_bin is Some,
        !facts.explicit_exists,
    ensures
        resolved_binary(opt_view(&config.neovim_bin), facts.explicit_exists, opt_view(&facts.discovered))
            == opt_view(&facts.discovered),
        facts.discovered is None ==> launch_command(host, config, facts) is None,
        launch_warnings(host, config, facts)[0] == LaunchWarning::InvalidBinaryPath,
{
}

} // verus!
