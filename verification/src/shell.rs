//! Which shell a session runs, and how it is started.

use crate::path_utils::{file_name_of, path_file_name};
use crate::text::{contains, lowercase_of, occurs_in, to_lowercase, trim, trimmed};
use vstd::prelude::*;
use vstd::string::StringExecFns;

verus! {

/// The shell that is started when the environment names none.
pub const DEFAULT_SHELL: &'static str = "/bin/zsh";

/// True when a lower-case file name is that of a shell of the bash, zsh, sh,
/// fish or ksh family.
pub open spec fn names_login_shell(name: Seq<char>) -> bool {
    ||| occurs_in("zsh"@, name)
    ||| occurs_in("bash"@, name)
    ||| occurs_in("sh"@, name)
    ||| occurs_in("fish"@, name)
    ||| occurs_in("ksh"@, name)
}

/// If `longer` occurs in `text` and `shorter` is what is left of `longer`
/// without its first `skip` characters, then `shorter` occurs in `text` too.
proof fn lemma_end_occurs(longer: Seq<char>, shorter: Seq<char>, skip: int, text: Seq<char>)
    requires
        0 <= skip <= longer.len(),
        shorter == longer.skip(skip),
        occurs_in(longer, text),
    ensures
        occurs_in(shorter, text),
{
    let i = choose|i: int|
        0 <= i && i + longer.len() <= text.len() && #[trigger] text.subrange(i, i + longer.len())
            == longer;
    assert(text.subrange(i + skip, i + skip + shorter.len()) =~= text.subrange(
        i,
        i + longer.len(),
    ).skip(skip));
}

/// Each of the five families has `sh` in its name: a name is that of a
/// login shell exactly when `sh` occurs in it.
pub proof fn lemma_login_shell_names_hold_sh(name: Seq<char>)
    ensures
        names_login_shell(name) <==> occurs_in("sh"@, name),
{
    reveal_strlit("zsh");
    reveal_strlit("bash");
    reveal_strlit("sh");
    reveal_strlit("fish");
    reveal_strlit("ksh");
    assert("zsh"@.skip(1) =~= "sh"@);
    assert("bash"@.skip(2) =~= "sh"@);
    assert("fish"@.skip(2) =~= "sh"@);
    assert("ksh"@.skip(1) =~= "sh"@);
    if occurs_in("zsh"@, name) {
        lemma_end_occurs("zsh"@, "sh"@, 1, name);
    }
    if occurs_in("bash"@, name) {
        lemma_end_occurs("bash"@, "sh"@, 2, name);
    }
    if occurs_in("fish"@, name) {
        lemma_end_occurs("fish"@, "sh"@, 2, name);
    }
    if occurs_in("ksh"@, name) {
        lemma_end_occurs("ksh"@, "sh"@, 1, name);
    }
}

/// Says whether the shell with the lower-case file name `name` takes the
/// login flag.
pub fn login_shell_name(name: &str) -> (accepts: bool)
    ensures
        accepts == names_login_shell(name@),
{
    contains(name, "zsh") || contains(name, "bash") || contains(name, "sh") || contains(
        name,
        "fish",
    ) || contains(name, "ksh")
}

/// Says whether the shell with the file name `name` takes the login flag:
/// the family is recognised whatever the case of the letters.
pub fn file_name_accepts_login_flag(name: &str) -> (accepts: bool)
    ensures
        accepts == names_login_shell(lowercase_of(name@)),
{
    let lower = to_lowercase(name);
    login_shell_name(lower.as_str())
}

/// The name by which the shell at `path` is recognised: the file name of
/// the path, or the whole path where it has none.
pub open spec fn shell_name_of(path: Seq<char>) -> Seq<char> {
    match file_name_of(path) {
        Some(name) => name,
        None => path,
    }
}

/// Says whether the shell at `shell_path` is started with the login flag.
pub fn shell_accepts_login_flag(shell_path: &str) -> (accepts: bool)
    ensures
        accepts == names_login_shell(lowercase_of(shell_name_of(shell_path@))),
{
    match path_file_name(shell_path) {
        Some(name) => file_name_accepts_login_flag(name),
        None => file_name_accepts_login_flag(shell_path),
    }
}

/// The shell to start, given the value of the environment's shell setting
/// and that value without the white space at its ends: the value itself,
/// unless it is blank.
pub fn shell_unless_blank(value: &str, inner: &str) -> (shell: String)
    ensures
        shell@ == if inner@.len() > 0 {
            value@
        } else {
            DEFAULT_SHELL@
        },
{
    if inner.is_empty() {
        String::from_str(DEFAULT_SHELL)
    } else {
        String::from_str(value)
    }
}

/// The shell that [`resolve_shell`] chooses.
pub open spec fn resolved_shell(setting: Option<Seq<char>>) -> Seq<char> {
    match setting {
        Some(value) => if trimmed(value).len() > 0 {
            value
        } else {
            DEFAULT_SHELL@
        },
        None => DEFAULT_SHELL@,
    }
}

/// Chooses the shell to start: the one that the environment's shell setting
/// names, or the default where the setting is missing or blank.
pub fn resolve_shell(setting: Option<String>) -> (shell: String)
    ensures
        shell@ == resolved_shell(
            match setting {
                Some(value) => Some(value@),
                None => None,
            },
        ),
{
    match setting {
        Some(value) => {
            let inner = trim(value.as_str());
            shell_unless_blank(value.as_str(), inner)
        },
        None => String::from_str(DEFAULT_SHELL),
    }
}

} // verus!
