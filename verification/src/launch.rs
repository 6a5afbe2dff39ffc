//! What is needed to start the shell of a new session: the working directory,
//! the command line and the environment of the child.

use crate::error::TerminalError;
use crate::shell::{
    names_login_shell, resolve_shell, resolved_shell, shell_accepts_login_flag, shell_name_of,
};
use crate::text::lowercase_of;
use vstd::prelude::*;
use vstd::string::StringExecFns;

verus! {

/// The terminal type given to the child when the host has none.
pub const DEFAULT_TERM: &'static str = "xterm-256color";

/// The colour capability given to the child when the host has none.
pub const DEFAULT_COLORTERM: &'static str = "truecolor";

/// The locale given to the child when the host has none.
pub const DEFAULT_LOCALE: &'static str = "en_US.UTF-8";

/// The name by which the child knows the program that runs it.
pub const TERM_PROGRAM_NAME: &'static str = "OpenChamber";

/// The flag that makes a shell a login shell.
pub const LOGIN_FLAG: &'static str = "-l";

/// What the host's environment holds of the settings that a session reads.
/// A setting that is absent, or is not text, is `None`.
#[derive(Debug, Clone, PartialEq, Eq)]
pub struct HostEnvironment {
    /// `SHELL`
    pub shell: Option<String>,
    /// `TERM`
    pub term: Option<String>,
    /// `COLORTERM`
    pub colorterm: Option<String>,
    /// `LC_ALL`
    pub lc_all: Option<String>,
    /// `LANG`
    pub lang: Option<String>,
}

/// One variable of the child's environment.
#[derive(Debug, Clone, PartialEq, Eq)]
pub struct EnvVar {
    pub name: String,
    pub value: String,
}

/// The text of an optional setting.
pub open spec fn text_of(setting: Option<String>) -> Option<Seq<char>> {
    match setting {
        Some(value) => Some(value@),
        None => None,
    }
}

/// The value of a setting, or `default` where it is absent.
pub open spec fn setting_or(setting: Option<String>, default: Seq<char>) -> Seq<char> {
    match setting {
        Some(value) => value@,
        None => default,
    }
}

/// The variables in `vars` as pairs of texts.
pub open spec fn env_text(vars: Seq<EnvVar>) -> Seq<(Seq<char>, Seq<char>)> {
    Seq::new(vars.len(), |i: int| (vars[i].name@, vars[i].value@))
}

/// The texts in `items`.
pub open spec fn texts(items: Seq<String>) -> Seq<Seq<char>> {
    Seq::new(items.len(), |i: int| items[i]@)
}

/// The variables that every session's child gets, in the order in which
/// they are set: the host's terminal type, colour capability and locale
/// where it has them and the defaults where it has not, then the program's
/// name and version, the desktop marker and the shell.
pub open spec fn terminal_environment(
    host: HostEnvironment,
    shell_path: Seq<char>,
    program_version: Seq<char>,
) -> Seq<(Seq<char>, Seq<char>)> {
    seq![
        ("TERM"@, setting_or(host.term, DEFAULT_TERM@)),
        ("COLORTERM"@, setting_or(host.colorterm, DEFAULT_COLORTERM@)),
        ("LC_ALL"@, setting_or(host.lc_all, DEFAULT_LOCALE@)),
        ("LANG"@, setting_or(host.lang, DEFAULT_LOCALE@)),
        ("TERM_PROGRAM"@, TERM_PROGRAM_NAME@),
        ("TERM_PROGRAM_VERSION"@, program_version),
        ("OPENCHAMBER_DESKTOP"@, "1"@),
        ("SHELL"@, shell_path),
    ]
}

/// A command to run in a pseudo-terminal.
#[derive(Debug, Clone, PartialEq, Eq)]
pub struct ShellCommand {
    /// The program to run.
    pub program: String,
    /// Its arguments, the program's own name not among them.
    pub args: Vec<String>,
    /// The directory in which it starts.
    pub cwd: Option<String>,
    /// The variables set for it, in the order in which they are set. A later
    /// one of the same name wins.
    pub env: Vec<EnvVar>,
}

impl ShellCommand {
    /// A command that runs `program` with no arguments.
    pub fn new(program: &str) -> (cmd: Self)
        ensures
            cmd.program@ == program@,
            cmd.args@.len() == 0,
            cmd.cwd is None,
            cmd.env@.len() == 0,
    {
        ShellCommand {
            program: String::from_str(program),
            args: Vec::new(),
            cwd: None,
            env: Vec::new(),
        }
    }

    /// Adds an argument.
    pub fn arg(&mut self, arg: &str)
        ensures
            texts(final(self).args@) == texts(old(self).args@).push(arg@),
            final(self).program == old(self).program,
            final(self).cwd == old(self).cwd,
            final(self).env == old(self).env,
    {
        self.args.push(String::from_str(arg));
        assert(texts(self.args@) =~= texts(old(self).args@).push(arg@));
    }

    /// Sets the directory in which the command starts.
    pub fn cwd(&mut self, dir: &str)
        ensures
            text_of(final(self).cwd) == Some(dir@),
            final(self).program == old(self).program,
            final(self).args == old(self).args,
            final(self).env == old(self).env,
    {
        self.cwd = Some(String::from_str(dir));
    }

    /// Sets a variable of the command's environment.
    pub fn env(&mut self, name: &str, value: &str)
        ensures
            env_text(final(self).env@) == env_text(old(self).env@).push((name@, value@)),
            final(self).program == old(self).program,
            final(self).args == old(self).args,
            final(self).cwd == old(self).cwd,
    {
        self.env.push(EnvVar { name: String::from_str(name), value: String::from_str(value) });
        assert(env_text(self.env@) =~= env_text(old(self).env@).push((name@, value@)));
    }
}

/// The value of an optional setting, or `default`.
fn setting_or_default<'a>(setting: &'a Option<String>, default: &'a str) -> (value: &'a str)
    ensures
        value@ == setting_or(*setting, default@),
{
    match setting {
        Some(value) => value.as_str(),
        None => default,
    }
}

/// Adds to `cmd` the variables that every session's child gets.
pub fn apply_terminal_environment(
    cmd: &mut ShellCommand,
    host: &HostEnvironment,
    shell_path: &str,
    program_version: &str,
)
    ensures
        env_text(final(cmd).env@) == env_text(old(cmd).env@) + terminal_environment(
            *host,
            shell_path@,
            program_version@,
        ),
        final(cmd).program == old(cmd).program,
        final(cmd).args == old(cmd).args,
        final(cmd).cwd == old(cmd).cwd,
{
    cmd.env("TERM", setting_or_default(&host.term, DEFAULT_TERM));
    cmd.env("COLORTERM", setting_or_default(&host.colorterm, DEFAULT_COLORTERM));
    cmd.env("LC_ALL", setting_or_default(&host.lc_all, DEFAULT_LOCALE));
    cmd.env("LANG", setting_or_default(&host.lang, DEFAULT_LOCALE));
    cmd.env("TERM_PROGRAM", TERM_PROGRAM_NAME);
    cmd.env("TERM_PROGRAM_VERSION", program_version);
    cmd.env("OPENCHAMBER_DESKTOP", "1");
    cmd.env("SHELL", shell_path);
    assert(env_text(cmd.env@) =~= env_text(old(cmd).env@) + terminal_environment(
        *host,
        shell_path@,
        program_version@,
    ));
}

/// What the caller found out about the directories in which a session may
/// start.
#[derive(Debug, Clone, PartialEq, Eq)]
pub struct DirectoryFacts {
    /// True when the requested directory exists.
    pub requested_exists: bool,
    /// True when the requested directory is a directory.
    pub requested_is_dir: bool,
    /// The user's home directory, if it can be determined.
    pub home: Option<String>,
    /// True when the home directory exists.
    pub home_exists: bool,
    /// True when the home directory is a directory.
    pub home_is_dir: bool,
}

/// The directory in which a session starts: the requested one if there is
/// one and it is an existing directory, else the home directory if that is
/// an existing directory. Where neither is, the error holds the directory
/// that was tried last, if any was.
pub open spec fn working_directory(input: Option<Seq<char>>, facts: DirectoryFacts) -> Result<
    Seq<char>,
    Option<Seq<char>>,
> {
    if input is Some && facts.requested_exists && facts.requested_is_dir {
        Ok(input->0)
    } else {
        match facts.home {
            Some(home) => if facts.home_exists && facts.home_is_dir {
                Ok(home@)
            } else {
                Err(Some(home@))
            },
            None => Err(input),
        }
    }
}

/// Chooses the directory in which a session starts.
pub fn resolve_working_directory(input: Option<&str>, facts: &DirectoryFacts) -> (dir: Result<
    String,
    TerminalError,
>)
    ensures
        match dir {
            Ok(path) => working_directory(
                match input {
                    Some(p) => Some(p@),
                    None => None,
                },
                *facts,
            ) == Ok::<Seq<char>, Option<Seq<char>>>(path@),
            Err(TerminalError::InvalidWorkingDirectory { path }) => working_directory(
                match input {
                    Some(p) => Some(p@),
                    None => None,
                },
                *facts,
            ) == Err::<Seq<char>, Option<Seq<char>>>(text_of(path)),
            Err(_) => false,
        },
{
    match input {
        Some(path) => {
            if facts.requested_exists && facts.requested_is_dir {
                return Ok(String::from_str(path));
            }
        },
        None => {},
    }
    match &facts.home {
        Some(home) => {
            if facts.home_exists && facts.home_is_dir {
                Ok(home.clone())
            } else {
                Err(TerminalError::InvalidWorkingDirectory { path: Some(home.clone()) })
            }
        },
        None => match input {
            Some(path) => Err(
                TerminalError::InvalidWorkingDirectory { path: Some(String::from_str(path)) },
            ),
            None => Err(TerminalError::InvalidWorkingDirectory { path: None }),
        },
    }
}

/// The size of a pseudo-terminal.
#[derive(Debug, Clone, Copy, PartialEq, Eq)]
pub struct PtySize {
    /// The number of lines of text.
    pub rows: u16,
    /// The number of columns of text.
    pub cols: u16,
    /// The width of a cell in pixels.
    pub pixel_width: u16,
    /// The height of a cell in pixels.
    pub pixel_height: u16,
}

/// The size of a pseudo-terminal of `cols` columns and `rows` lines, with no
/// pixel size given.
pub fn pty_size(cols: u16, rows: u16) -> (size: PtySize)
    ensures
        size == (PtySize { rows, cols, pixel_width: 0, pixel_height: 0 }),
{
    PtySize { rows, cols, pixel_width: 0, pixel_height: 0 }
}

/// The arguments with which the shell `program` is started.
pub open spec fn shell_arguments(program: Seq<char>) -> Seq<Seq<char>> {
    if names_login_shell(lowercase_of(shell_name_of(program))) {
        seq![LOGIN_FLAG@]
    } else {
        Seq::empty()
    }
}

/// The command that starts a session's shell in `working_dir`: the shell that
/// the host names or the default one, as a login shell where it is of a
/// family that can be one, with the session's variables.
pub fn shell_command(working_dir: &str, host: &HostEnvironment, program_version: &str) -> (cmd:
    ShellCommand)
    ensures
        cmd.program@ == resolved_shell(text_of(host.shell)),
        texts(cmd.args@) == shell_arguments(cmd.program@),
        text_of(cmd.cwd) == Some(working_dir@),
        env_text(cmd.env@) == terminal_environment(*host, cmd.program@, program_version@),
{
    let shell_path = resolve_shell(host.shell.clone());
    let mut cmd = ShellCommand::new(shell_path.as_str());
    assert(texts(cmd.args@) =~= Seq::<Seq<char>>::empty());
    assert(env_text(cmd.env@) =~= Seq::<(Seq<char>, Seq<char>)>::empty());
    if shell_accepts_login_flag(shell_path.as_str()) {
        cmd.arg(LOGIN_FLAG);
        assert(texts(cmd.args@) =~= seq![LOGIN_FLAG@]);
    }
    cmd.cwd(working_dir);
    apply_terminal_environment(&mut cmd, host, shell_path.as_str(), program_version);
    assert(env_text(cmd.env@) =~= terminal_environment(*host, cmd.program@, program_version@));
    cmd
}

} // verus!
