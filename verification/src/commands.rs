//! The commands that the host sends: what each one decides.
//!
//! A command here changes the registry and says what is to be done to the
//! pseudo-terminal and to the child process. Doing it is the caller's part.

use crate::error::TerminalError;
use crate::launch::{
    env_text, pty_size, resolve_working_directory, shell_arguments, shell_command,
    terminal_environment, text_of, texts, working_directory, DirectoryFacts, HostEnvironment,
    PtySize, ShellCommand,
};
use crate::registry::TerminalState;
use crate::shell::resolved_shell;
use vstd::prelude::*;
use vstd::string::StringSliceAdditionalSpecFns;

verus! {

/// The request to open a session.
#[derive(Debug, Clone, PartialEq, Eq)]
pub struct CreateTerminalPayload {
    pub cols: u16,
    pub rows: u16,
    pub cwd: Option<String>,
}

/// The answer to a request that opened a session.
#[derive(Debug, Clone, PartialEq, Eq)]
pub struct CreateTerminalResponse {
    pub session_id: String,
}

/// The request to replace a session by a fresh one.
#[derive(Debug, Clone, PartialEq, Eq)]
pub struct RestartTerminalPayload {
    pub session_id: String,
    pub cols: u16,
    pub rows: u16,
    pub cwd: String,
}

/// The request to kill one session, or all of them where it names none.
#[derive(Debug, Clone, PartialEq, Eq)]
pub struct ForceKillPayload {
    pub session_id: Option<String>,
    /// Accepted and not used.
    pub cwd: Option<String>,
}

/// How to bring up the pseudo-terminal and the shell of a new session.
#[derive(Debug, Clone, PartialEq, Eq)]
pub struct SpawnPlan {
    /// The size of the pseudo-terminal to allocate.
    pub size: PtySize,
    /// The command to spawn on its slave side.
    pub command: ShellCommand,
}

/// True when `plan` is the plan for a session of `cols` by `rows` that
/// starts in `dir` on the host `host`.
pub open spec fn plan_for(
    plan: SpawnPlan,
    cols: u16,
    rows: u16,
    dir: Seq<char>,
    host: HostEnvironment,
    program_version: Seq<char>,
) -> bool {
    &&& plan.size == (PtySize { rows, cols, pixel_width: 0, pixel_height: 0 })
    &&& plan.command.program@ == resolved_shell(text_of(host.shell))
    &&& texts(plan.command.args@) == shell_arguments(plan.command.program@)
    &&& text_of(plan.command.cwd) == Some(dir)
    &&& env_text(plan.command.env@) == terminal_environment(
        host,
        plan.command.program@,
        program_version,
    )
}

/// True when `outcome` is what a request for a session of `cols` by `rows` in
/// the directory `cwd` comes to: the plan where a working directory is found,
/// and the error that names the directory tried last where none is.
pub open spec fn planned(
    outcome: Result<SpawnPlan, TerminalError>,
    cols: u16,
    rows: u16,
    cwd: Option<Seq<char>>,
    facts: DirectoryFacts,
    host: HostEnvironment,
    program_version: Seq<char>,
) -> bool {
    match outcome {
        Ok(plan) => working_directory(cwd, facts) is Ok && plan_for(
            plan,
            cols,
            rows,
            working_directory(cwd, facts)->Ok_0,
            host,
            program_version,
        ),
        Err(TerminalError::InvalidWorkingDirectory { path }) => working_directory(cwd, facts)
            == Err::<Seq<char>, Option<Seq<char>>>(text_of(path)),
        Err(_) => false,
    }
}

/// Plans a session of `cols` by `rows` that starts in `cwd`.
fn plan_session(
    cols: u16,
    rows: u16,
    cwd: Option<&str>,
    facts: &DirectoryFacts,
    host: &HostEnvironment,
    program_version: &str,
) -> (outcome: Result<SpawnPlan, TerminalError>)
    ensures
        planned(
            outcome,
            cols,
            rows,
            match cwd {
                Some(p) => Some(p@),
                None => None,
            },
            *facts,
            *host,
            program_version@,
        ),
{
    let size = pty_size(cols, rows);
    match resolve_working_directory(cwd, facts) {
        Ok(dir) => {
            let command = shell_command(dir.as_str(), host, program_version);
            Ok(SpawnPlan { size, command })
        },
        Err(e) => Err(e),
    }
}

/// Decides how the session that `payload` asks for is brought up, or why
/// it cannot be. Nothing is registered yet.
pub fn create_terminal_session(
    payload: &CreateTerminalPayload,
    facts: &DirectoryFacts,
    host: &HostEnvironment,
    program_version: &str,
) -> (outcome: Result<SpawnPlan, TerminalError>)
    ensures
        planned(
            outcome,
            payload.cols,
            payload.rows,
            text_of(payload.cwd),
            *facts,
            *host,
            program_version@,
        ),
{
    match &payload.cwd {
        Some(cwd) => plan_session(
            payload.cols,
            payload.rows,
            Some(cwd.as_str()),
            facts,
            host,
            program_version,
        ),
        None => plan_session(payload.cols, payload.rows, None, facts, host, program_version),
    }
}

/// Closes the session `session_id`: it leaves the registry, and is returned
/// for its child to be killed. Where no such session is registered nothing
/// changes and nothing is returned.
pub fn close_terminal<S>(session_id: &str, state: &mut TerminalState<S>) -> (closed: Option<S>)
    ensures
        final(state)@ == old(state)@.remove(session_id@),
        closed == if old(state)@.contains_key(session_id@) {
            Some(old(state)@[session_id@])
        } else {
            None
        },
{
    state.remove(session_id)
}

/// Closing a session that is not registered changes nothing, and after a
/// session was closed it is not registered: to close it again changes
/// nothing.
pub proof fn lemma_close_is_idempotent<S>(sessions: Map<Seq<char>, S>, id: Seq<char>)
    ensures
        !sessions.contains_key(id) ==> sessions.remove(id) == sessions,
        !sessions.remove(id).contains_key(id),
        sessions.remove(id).remove(id) == sessions.remove(id),
{
    if !sessions.contains_key(id) {
        assert(sessions.remove(id) =~= sessions);
    }
    assert(sessions.remove(id).remove(id) =~= sessions.remove(id));
}

/// True when `c` is a digit of lower-case hexadecimal.
pub open spec fn is_lower_hex(c: char) -> bool {
    ('0' <= c && c <= '9') || ('a' <= c && c <= 'f')
}

/// True when `id` has the form of a session identifier: a random (version 4)
/// UUID in its hyphenated lower-case form.
pub open spec fn is_session_id(id: Seq<char>) -> bool {
    &&& id.len() == 36
    &&& forall|i: int|
        0 <= i < 36 ==> if i == 8 || i == 13 || i == 18 || i == 23 {
            #[trigger] id[i] == '-'
        } else {
            is_lower_hex(id[i])
        }
    &&& id[14] == '4'
    &&& (id[19] == '8' || id[19] == '9' || id[19] == 'a' || id[19] == 'b')
}

/// Calls `uuid::Uuid::new_v4` and renders the result with its `Display`.
///
/// Trusted: the text is a version 4 UUID in hyphenated lower-case form.
/// Which one it is depends on the system's random numbers, so nothing more
/// is claimed; in particular not that two calls differ. The call panics if
/// the system cannot supply random bytes.
#[verifier::external_body]
pub(crate) fn new_session_id() -> (id: String)
    ensures
        is_session_id(id@),
{
    uuid::Uuid::new_v4().to_string()
}

/// Registers `session` under `session_id`. A session that was registered
/// under that identifier before is dropped from the registry.
pub fn register_session_as<S>(
    state: &mut TerminalState<S>,
    session_id: String,
    session: S,
) -> (created: CreateTerminalResponse)
    ensures
        final(state)@ == old(state)@.insert(session_id@, session),
        created.session_id@ == session_id@,
{
    let _ = state.insert(session_id.clone(), session);
    CreateTerminalResponse { session_id }
}

/// Registers `session`, whose pseudo-terminal and shell are up, under a new
/// identifier, and answers with that identifier.
pub fn register_session<S>(state: &mut TerminalState<S>, session: S) -> (created:
    CreateTerminalResponse)
    ensures
        is_session_id(created.session_id@),
        final(state)@ == old(state)@.insert(created.session_id@, session),
{
    let session_id = new_session_id();
    register_session_as(state, session_id, session)
}

/// A session that is registered under an identifier that was not in use
/// stands beside every session that was registered before: none of them is
/// replaced, and none of them has the new identifier.
pub proof fn lemma_unused_identifier_is_distinct<S>(
    sessions: Map<Seq<char>, S>,
    session_id: Seq<char>,
    session: S,
)
    requires
        sessions.dom().finite(),
        !sessions.contains_key(session_id),
    ensures
        sessions.insert(session_id, session).len() == sessions.len() + 1,
        forall|other: Seq<char>| #[trigger]
            sessions.contains_key(other) ==> other != session_id && sessions.insert(
                session_id,
                session,
            ).contains_key(other) && sessions.insert(session_id, session)[other]
                == sessions[other],
{
}

/// What to write, and into which session.
pub struct WriteRequest<'s, 'd, S> {
    /// The session whose writer takes the bytes.
    pub session: &'s S,
    /// The bytes to write, all of them.
    pub bytes: &'d [u8],
}

/// Finds the session that `data` is to be written to. The bytes to write
/// are those of `data` as it stands.
pub fn send_terminal_input<'s, 'd, S>(
    session_id: &str,
    data: &'d str,
    state: &'s TerminalState<S>,
) -> (request: Result<WriteRequest<'s, 'd, S>, TerminalError>)
    ensures
        match request {
            Ok(write) => state@.contains_key(session_id@) && *write.session == state@[session_id@]
                && write.bytes@ == data.spec_bytes(),
            Err(e) => !state@.contains_key(session_id@) && e == TerminalError::SessionNotFound,
        },
{
    match state.get(session_id) {
        Some(session) => Ok(WriteRequest { session, bytes: data.as_bytes() }),
        None => Err(TerminalError::SessionNotFound),
    }
}

/// To what size to set a pseudo-terminal, and that of which session.
pub struct ResizeRequest<'a, S> {
    /// The session whose pseudo-terminal is resized.
    pub session: &'a S,
    /// Its new size.
    pub size: PtySize,
}

/// Finds the session to resize to `cols` by `rows`.
pub fn resize_terminal<'a, S>(
    session_id: &str,
    cols: u16,
    rows: u16,
    state: &'a TerminalState<S>,
) -> (request: Result<ResizeRequest<'a, S>, TerminalError>)
    ensures
        match request {
            Ok(resize) => state@.contains_key(session_id@) && *resize.session
                == state@[session_id@] && resize.size == (PtySize {
                rows,
                cols,
                pixel_width: 0,
                pixel_height: 0,
            }),
            Err(e) => !state@.contains_key(session_id@) && e == TerminalError::SessionNotFound,
        },
{
    match state.get(session_id) {
        Some(session) => Ok(ResizeRequest { session, size: pty_size(cols, rows) }),
        None => Err(TerminalError::SessionNotFound),
    }
}

/// What a restart comes to.
pub struct Restart<S> {
    /// The session that was closed, for its child to be killed.
    pub closed: Option<S>,
    /// How the new session is brought up, or why it cannot be.
    pub plan: Result<SpawnPlan, TerminalError>,
}

/// Closes the session that `payload` names, as [`close_terminal`] does, and
/// then decides how its successor is brought up, as
/// [`create_terminal_session`] does. The old session is closed also where no
/// new one can be planned.
pub fn restart_terminal_session<S>(
    payload: &RestartTerminalPayload,
    state: &mut TerminalState<S>,
    facts: &DirectoryFacts,
    host: &HostEnvironment,
    program_version: &str,
) -> (restart: Restart<S>)
    ensures
        final(state)@ == old(state)@.remove(payload.session_id@),
        restart.closed == if old(state)@.contains_key(payload.session_id@) {
            Some(old(state)@[payload.session_id@])
        } else {
            None
        },
        planned(
            restart.plan,
            payload.cols,
            payload.rows,
            Some(payload.cwd@),
            *facts,
            *host,
            program_version@,
        ),
{
    let closed = close_terminal(payload.session_id.as_str(), state);
    let plan = plan_session(
        payload.cols,
        payload.rows,
        Some(payload.cwd.as_str()),
        facts,
        host,
        program_version,
    );
    Restart { closed, plan }
}

/// Closes the session that `payload` names, or every session where it
/// names none. The sessions that left the registry are returned, each once,
/// for their children to be killed.
pub fn force_kill_terminal<S>(payload: &ForceKillPayload, state: &mut TerminalState<S>) -> (killed:
    Vec<S>)
    ensures
        match payload.session_id {
            Some(id) => {
                &&& final(state)@ == old(state)@.remove(id@)
                &&& killed@ == if old(state)@.contains_key(id@) {
                    seq![old(state)@[id@]]
                } else {
                    Seq::empty()
                }
            },
            None => {
                &&& final(state)@ == Map::<Seq<char>, S>::empty()
                &&& old(state).consistent()
                &&& killed@.len() == old(state).order().len()
                &&& forall|i: int|
                    0 <= i < killed@.len() ==> killed@[i] == old(state)@[#[trigger] old(
                        state,
                    ).order()[i]]
            },
        },
{
    match &payload.session_id {
        Some(id) => {
            let mut killed: Vec<S> = Vec::new();
            match close_terminal(id.as_str(), state) {
                Some(session) => {
                    killed.push(session);
                    assert(killed@ =~= seq![session]);
                },
                None => {},
            }
            killed
        },
        None => state.take_all(),
    }
}

} // verus!
