use vstd::prelude::*;

use crate::text::{command_text, command_with_args, extend_strings, views};

verus! {

/// Process creation flag that keeps a console window from opening for the
/// child (`CREATE_NO_WINDOW` of the Windows API).
pub const CREATE_NO_WINDOW: u32 = 0x0800_0000;

/// The host operating system, as far as launching is concerned.
#[derive(Clone, Copy, Debug, PartialEq, Eq, Structural)]
pub enum Platform {
    Windows,
    MacOs,
    Other,
}

/// What the launcher reads of the host it runs on.
pub struct HostEnv {
    pub platform: Platform,
    /// The user's login shell, from the environment, if set.
    pub shell: Option<String>,
    /// Whether an interactive terminal is announced in the environment.
    pub term_set: bool,
}

/// A program with its arguments and process creation flags, ready to spawn.
pub struct CommandLine {
    pub program: String,
    pub args: Vec<String>,
    pub creation_flags: u32,
}

/// The mathematical value of a `CommandLine`.
pub struct CommandView {
    pub program: Seq<char>,
    pub args: Seq<Seq<char>>,
    pub creation_flags: u32,
}

impl View for CommandLine {
    type V = CommandView;

    open spec fn view(&self) -> CommandView {
        CommandView { program: self.program@, args: views(self.args@), creation_flags: self.creation_flags }
    }
}

/// The characters of an optional string.
pub open spec fn opt_view(o: &Option<String>) -> Option<Seq<char>> {
    match o {
        Some(s) => Some(s@),
        None => None,
    }
}

/// Whether commands are routed through the Linux subsystem bridge.
pub open spec fn wraps_in_wsl(host: &HostEnv, wsl: bool) -> bool {
    host.platform == Platform::Windows && wsl
}

/// The shell a macOS host wraps commands in: the user's, else `/bin/sh`.
pub open spec fn login_shell(host: &HostEnv) -> Seq<char> {
    match host.shell {
        Some(s) => s@,
        None => "/bin/sh"@,
    }
}

/// The login flag, present only when no interactive terminal is announced.
pub open spec fn login_flag(host: &HostEnv) -> Seq<Seq<char>> {
    if host.term_set {
        Seq::empty()
    } else {
        seq!["-l"@]
    }
}

/// The helper command line that runs `command args` through the host's
/// shell, or `None` where the host needs no shell.
pub open spec fn platform_shell_command_spec(
    host: &HostEnv,
    wsl: bool,
    command: Seq<char>,
    args: Seq<Seq<char>>,
) -> Option<CommandView> {
    if wraps_in_wsl(host, wsl) {
        Some(
            CommandView {
                program: "wsl"@,
                args: seq!["$SHELL"@, "-lc"@, command_text(command, args)],
                creation_flags: CREATE_NO_WINDOW,
            },
        )
    } else if host.platform == Platform::MacOs {
        Some(
            CommandView {
                program: login_shell(host),
                args: login_flag(host) + seq!["-c"@, command_text(command, args)],
                creation_flags: 0,
            },
        )
    } else {
        None
    }
}

/// Names what `shlex::quote` makes of a word.
pub uninterp spec fn shell_quoted(word: Seq<char>) -> Seq<char>;

/// The distribution selector passed to the bridge: present only for a
/// configured distribution that was found installed.
pub open spec fn distro_selector(distro: Option<Seq<char>>, distro_present: bool) -> Seq<Seq<char>> {
    match distro {
        Some(d) => if distro_present {
            seq!["-d"@, d]
        } else {
            Seq::empty()
        },
        None => Seq::empty(),
    }
}

/// The command line that starts the editor binary `bin` with `args`.
pub open spec fn nvim_command_spec(
    host: &HostEnv,
    wsl: bool,
    distro: Option<Seq<char>>,
    distro_present: bool,
    bin: Seq<char>,
    args: Seq<Seq<char>>,
) -> CommandView {
    if wraps_in_wsl(host, wsl) {
        CommandView {
            program: "wsl"@,
            args: distro_selector(distro, distro_present) + seq![
                "$SHELL"@,
                "-lc"@,
                command_text(bin, args),
            ],
            creation_flags: 0,
        }
    } else if host.platform == Platform::MacOs {
        CommandView {
            program: login_shell(host),
            args: login_flag(host) + seq![
                "-c"@,
                command_text(bin, args.map_values(|a: Seq<char>| shell_quoted(a))),
            ],
            creation_flags: 0,
        }
    } else {
        CommandView { program: bin, args, creation_flags: 0 }
    }
}

/// Relies on `shlex::quote` (1.3): quotes one word for a POSIX shell. With
/// nul bytes allowed it never fails, so it does not panic.
#[verifier::external_body]
#[allow(deprecated)]
fn quote_word(word: &str) -> (r: String)
    ensures
        r@ == shell_quoted(word@),
{
    shlex::quote(word).into_owned()
}

fn quote_all(args: &Vec<String>) -> (r: Vec<String>)
    ensures
        views(r@) == views(args@).map_values(|a: Seq<char>| shell_quoted(a)),
{
    let mut r: Vec<String> = Vec::new();
    let mut i: usize = 0;
    while i < args.len()
        invariant
            i <= args.len(),
            views(r@) =~= views(args@).subrange(0, i as int).map_values(
                |a: Seq<char>| shell_quoted(a),
            ),
        decreases args.len() - i,
    {
        let q = quote_word(args[i].as_str());
        let ghost prev = r@;
        r.push(q);
        proof {
            assert(r@ == prev.push(q));
            assert(views(r@) =~= views(prev).push(shell_quoted(args@[i as int]@)));
            assert(views(args@).subrange(0, i as int + 1) =~= views(args@).subrange(0, i as int).push(
                args@[i as int]@,
            ));
        }
        i = i + 1;
    }
    assert(views(args@).subrange(0, args.len() as int) =~= views(args@));
    r
}

fn shell_program(host: &HostEnv) -> (r: String)
    ensures
        r@ == login_shell(host),
{
    match &host.shell {
        Some(s) => s.clone(),
        None => String::from_str("/bin/sh"),
    }
}

/// Arguments for a shell on a macOS host: the login flag where no terminal
/// is announced, then `-c` and the command text.
fn macos_shell_args(host: &HostEnv, text: String) -> (r: Vec<String>)
    ensures
        views(r@) == login_flag(host) + seq!["-c"@, text@],
{
    let mut r: Vec<String> = Vec::new();
    if !host.term_set {
        r.push(String::from_str("-l"));
    }
    r.push(String::from_str("-c"));
    r.push(text);
    assert(views(r@) =~= login_flag(host) + seq!["-c"@, text@]);
    r
}

/// Wraps `command args` in the shell the host needs for it: the subsystem
/// bridge's login shell on Windows with bridging on, the user's shell on
/// macOS, and none elsewhere. The arguments are joined by single spaces,
/// without quoting.
pub fn create_platform_shell_command(host: &HostEnv, wsl: bool, command: &str, args: &Vec<String>) -> (r:
    Option<CommandLine>)
    ensures
        match r {
            Some(c) => platform_shell_command_spec(host, wsl, command@, views(args@)) == Some(c@),
            None => platform_shell_command_spec(host, wsl, command@, views(args@)) is None,
        },
{
    if host.platform == Platform::Windows && wsl {
        let mut a: Vec<String> = Vec::new();
        a.push(String::from_str("$SHELL"));
        a.push(String::from_str("-lc"));
        a.push(command_with_args(command, args));
        assert(views(a@) =~= seq!["$SHELL"@, "-lc"@, command_text(command@, views(args@))]);
        Some(CommandLine { program: String::from_str("wsl"), args: a, creation_flags: CREATE_NO_WINDOW })
    } else if host.platform == Platform::MacOs {
        let text = command_with_args(command, args);
        let a = macos_shell_args(host, text);
        Some(CommandLine { program: shell_program(host), args: a, creation_flags: 0 })
    } else {
        None
    }
}

/// Arguments to the subsystem bridge that run `bin args` in the chosen
/// distribution's login shell.
pub fn nvim_windows_cmd_impl(bin: &str, distro: &Option<String>, distro_present: bool, bin_args: &Vec<String>) -> (r:
    CommandLine)
    ensures
        r@.program == "wsl"@,
        r@.args == distro_selector(opt_view(distro), distro_present) + seq![
            "$SHELL"@,
            "-lc"@,
            command_text(bin@, views(bin_args@)),
        ],
        r@.creation_flags == 0,
{
    let mut a: Vec<String> = Vec::new();
    match distro {
        Some(d) => {
            if distro_present {
                a.push(String::from_str("-d"));
                a.push(d.clone());
            }
        },
        None => {},
    }
    let ghost selector = views(a@);
    assert(selector =~= distro_selector(opt_view(distro), distro_present));
    a.push(String::from_str("$SHELL"));
    a.push(String::from_str("-lc"));
    a.push(command_with_args(bin, bin_args));
    assert(views(a@) =~= selector + seq!["$SHELL"@, "-lc"@, command_text(bin@, views(bin_args@))]);
    CommandLine { program: String::from_str("wsl"), args: a, creation_flags: 0 }
}

/// The command line that starts the editor binary `bin` with `args` on this
/// host: through the subsystem bridge, through the user's shell with each
/// argument quoted, or directly.
pub fn nvim_cmd_impl(
    host: &HostEnv,
    wsl: bool,
    distro: &Option<String>,
    distro_present: bool,
    bin: &str,
    args: &Vec<String>,
) -> (r: CommandLine)
    ensures
        r@ == nvim_command_spec(host, wsl, opt_view(distro), distro_present, bin@, views(args@)),
{
    if host.platform == Platform::Windows && wsl {
        nvim_windows_cmd_impl(bin, distro, distro_present, args)
    } else if host.platform == Platform::MacOs {
        let quoted = quote_all(args);
        let text = command_with_args(bin, &quoted);
        let a = macos_shell_args(host, text);
        CommandLine { program: shell_program(host), args: a, creation_flags: 0 }
    } else {
        let mut a: Vec<String> = Vec::new();
        extend_strings(&mut a, args);
        assert(views(a@) =~= views(args@));
        CommandLine { program: String::from_str(bin), args: a, creation_flags: 0 }
    }
}

/// On a host that is neither Windows nor macOS nothing is wrapped: no
/// helper shell exists, and the editor command is the binary with the
/// arguments unchanged, element for element.
pub proof fn lemma_other_host_unwrapped(
    host: &HostEnv,
    wsl: bool,
    distro: Option<Seq<char>>,
    distro_present: bool,
    command: Seq<char>,
    args: Seq<Seq<char>>,
)
    requires
        host.platform == Platform::Other,
    ensures
        platform_shell_command_spec(host, wsl, command, args) is None,
        nvim_command_spec(host, wsl, distro, distro_present, command, args) == (CommandView {
            program: command,
            args,
            creation_flags: 0,
        }),
{
}

/// On macOS the shell gets a login flag before `-c` exactly when no
/// interactive terminal is announced.
pub proof fn lemma_macos_login_flag(
    host: &HostEnv,
    wsl: bool,
    distro: Option<Seq<char>>,
    distro_present: bool,
    command: Seq<char>,
    args: Seq<Seq<char>>,
)
    requires
        host.platform == Platform::MacOs,
    ensures
        ({
            let v = nvim_command_spec(host, wsl, distro, distro_present, command, args);
            let t = command_text(command, args.map_values(|a: Seq<char>| shell_quoted(a)));
            &&& !host.term_set ==> v.args == seq!["-l"@, "-c"@, t]
            &&& host.term_set ==> v.args == seq!["-c"@, t]
        }),
        ({
            let w = platform_shell_command_spec(host, wsl, command, args).unwrap();
            let t = command_text(command, args);
            &&& !host.term_set ==> w.args == seq!["-l"@, "-c"@, t]
            &&& host.term_set ==> w.args == seq!["-c"@, t]
        }),
{
    let t = command_text(command, args.map_values(|a: Seq<char>| shell_quoted(a)));
    let u = command_text(command, args);
    assert(login_flag(host) + seq!["-c"@, t] =~= if host.term_set {
        seq!["-c"@, t]
    } else {
        seq!["-l"@, "-c"@, t]
    });
    assert(login_flag(host) + seq!["-c"@, u] =~= if host.term_set {
        seq!["-c"@, u]
    } else {
        seq!["-l"@, "-c"@, u]
    });
}

} // verus!
