//! The client side of the council hub: where it is reached.

use crate::clock::timestamp_millis;
use crate::text::{decimal, decimal_text, trim, trimmed};
use vstd::prelude::*;
use vstd::string::{StrSliceExecFns, StringExecFns};

verus! {

/// Where the hub is reached when the environment does not say.
pub const DEFAULT_HUB_URL: &'static str = "http://localhost:3000";

/// The extension that talks to the hub.
pub struct AiosExtension {
    /// The address of the hub, without a path.
    pub hub_url: String,
}

impl AiosExtension {
    /// An extension for the hub at `hub_url`, the value of the environment's
    /// `AIOS_HUB_URL`, or at the default address where that is absent.
    pub fn new(hub_url: Option<String>) -> (ext: Self)
        ensures
            ext.hub_url@ == match hub_url {
                Some(url) => url@,
                None => DEFAULT_HUB_URL@,
            },
    {
        match hub_url {
            Some(url) => AiosExtension { hub_url: url },
            None => AiosExtension { hub_url: String::from_str(DEFAULT_HUB_URL) },
        }
    }

    /// The address of `path` on the hub.
    pub fn url(&self, path: &str) -> (url: String)
        ensures
            url@ == self.hub_url@ + path@,
    {
        self.hub_url.clone().concat(path)
    }
}

/// The question put to the council.
#[derive(Debug, Clone, PartialEq, Eq)]
pub struct DebateTask {
    pub id: String,
    pub description: String,
    pub files: Vec<String>,
    pub context: String,
}

/// The body of the request that starts a debate.
#[derive(Debug, Clone, PartialEq, Eq)]
pub struct DebateRequest {
    pub task: DebateTask,
}

/// The body of the request that starts an architect session.
#[derive(Debug, Clone, PartialEq, Eq)]
pub struct ArchitectRequest {
    pub task: String,
    pub context: Option<String>,
    pub files: Option<Vec<String>>,
}

/// How a request is sent.
#[derive(Debug, Clone, Copy, PartialEq, Eq)]
pub enum HubMethod {
    Get,
    Post,
}

/// What a request carries.
#[derive(Debug, Clone, PartialEq, Eq)]
pub enum HubBody {
    /// Nothing: the request only asks.
    Nothing,
    /// An empty JSON object.
    EmptyObject,
    /// A debate to start.
    Debate(DebateRequest),
    /// An architect session to start.
    Architect(ArchitectRequest),
}

/// A request to the hub.
#[derive(Debug, Clone, PartialEq, Eq)]
pub struct HubRequest {
    pub method: HubMethod,
    pub url: String,
    pub body: HubBody,
}

/// The context of a debate is cut after this many characters.
pub const MAX_CONTEXT_CHARS: usize = 10000;

/// How to ask for a debate.
pub const DEBATE_USAGE: &'static str = "Usage: /aios-debate <description>";

/// How to ask for an architect session.
pub const ARCHITECT_USAGE: &'static str = "Usage: /aios-architect <task description>";

/// How to approve a plan.
pub const APPROVE_USAGE: &'static str = "Usage: /aios-approve <session_id>";

/// Where debates are started.
pub const DEBATE_PATH: &'static str = "/api/council/debate";

/// Where architect sessions are started.
pub const ARCHITECT_PATH: &'static str = "/api/architect/sessions";

/// Where the summary of the supervisors' analytics is.
pub const ANALYTICS_PATH: &'static str = "/api/supervisor-analytics/summary";

/// Where the debate templates are.
pub const TEMPLATES_PATH: &'static str = "/api/debate-templates";

/// Where the git worktrees are listed.
pub const WORKTREES_PATH: &'static str = "/api/worktrees";

/// Where the hub says how it is.
pub const HEALTH_PATH: &'static str = "/api/health";

/// The first `MAX_CONTEXT_CHARS` characters of `context`, or all of it where
/// it has fewer.
pub open spec fn context_kept(context: Seq<char>) -> Seq<char> {
    if context.len() > MAX_CONTEXT_CHARS {
        context.take(MAX_CONTEXT_CHARS as int)
    } else {
        context
    }
}

/// True when `request` starts the debate on `description` in `context` that
/// was asked for at the time `stamp`.
pub open spec fn is_debate_request(
    request: HubRequest,
    hub_url: Seq<char>,
    description: Seq<char>,
    context: Seq<char>,
    stamp: u64,
) -> bool {
    &&& request.method == HubMethod::Post
    &&& request.url@ == hub_url + DEBATE_PATH@
    &&& request.body matches HubBody::Debate(body)
    &&& body.task.id@ == "zed-"@ + decimal_text(stamp as nat)
    &&& body.task.description@ == description
    &&& body.task.files@.len() == 0
    &&& body.task.context@ == context_kept(context)
}

/// The request that starts a debate on `args`, asked for at the time
/// `stamp`; or how to ask, where `args` is empty.
pub fn debate_at(ext: &AiosExtension, args: &str, context: &str, stamp: u64) -> (request: Result<
    HubRequest,
    String,
>)
    ensures
        match request {
            Ok(r) => args@.len() > 0 && is_debate_request(r, ext.hub_url@, args@, context@, stamp),
            Err(usage) => args@.len() == 0 && usage@ == DEBATE_USAGE@,
        },
{
    if args.is_empty() {
        return Err(String::from_str(DEBATE_USAGE));
    }
    let len = context.unicode_len();
    let kept = if len > MAX_CONTEXT_CHARS {
        context.substring_char(0, MAX_CONTEXT_CHARS)
    } else {
        context
    };
    let mut id = String::from_str("zed-");
    id.append(decimal(stamp).as_str());
    let task = DebateTask {
        id,
        description: String::from_str(args),
        files: Vec::new(),
        context: String::from_str(kept),
    };
    Ok(
        HubRequest {
            method: HubMethod::Post,
            url: ext.url(DEBATE_PATH),
            body: HubBody::Debate(DebateRequest { task }),
        },
    )
}

/// The request that starts a debate on `args` now; or how to ask, where
/// `args` is empty.
pub fn debate(ext: &AiosExtension, args: &str, context: &str) -> (request: Result<
    HubRequest,
    String,
>)
    ensures
        match request {
            Ok(r) => args@.len() > 0 && exists|stamp: u64|
                is_debate_request(r, ext.hub_url@, args@, context@, stamp),
            Err(usage) => args@.len() == 0 && usage@ == DEBATE_USAGE@,
        },
{
    debate_at(ext, args, context, timestamp_millis())
}

/// The request that starts an architect session for the task `args`; or how
/// to ask, where `args` is empty.
pub fn architect(ext: &AiosExtension, args: &str) -> (request: Result<HubRequest, String>)
    ensures
        match request {
            Ok(r) => {
                &&& args@.len() > 0
                &&& r.method == HubMethod::Post
                &&& r.url@ == ext.hub_url@ + ARCHITECT_PATH@
                &&& r.body matches HubBody::Architect(body)
                &&& body.task@ == args@
                &&& body.context is None
                &&& body.files is None
            },
            Err(usage) => args@.len() == 0 && usage@ == ARCHITECT_USAGE@,
        },
{
    if args.is_empty() {
        return Err(String::from_str(ARCHITECT_USAGE));
    }
    Ok(
        HubRequest {
            method: HubMethod::Post,
            url: ext.url(ARCHITECT_PATH),
            body: HubBody::Architect(
                ArchitectRequest { task: String::from_str(args), context: None, files: None },
            ),
        },
    )
}

/// The path on the hub at which the plan of the session `session_id` is
/// approved.
pub open spec fn approve_path(session_id: Seq<char>) -> Seq<char> {
    "/api/architect/sessions/"@ + session_id + "/approve"@
}

/// The request that approves the plan of the session `session_id`.
pub fn approve_session(ext: &AiosExtension, session_id: &str) -> (request: HubRequest)
    ensures
        request.method == HubMethod::Post,
        request.url@ == ext.hub_url@ + approve_path(session_id@),
        request.body == HubBody::EmptyObject,
{
    let mut path = String::from_str("/api/architect/sessions/");
    path.append(session_id);
    path.append("/approve");
    let url = ext.url(path.as_str());
    HubRequest { method: HubMethod::Post, url, body: HubBody::EmptyObject }
}

/// The request that approves the plan of the session that `args` names,
/// white space around the name dropped; or how to ask, where `args` is empty.
pub fn approve(ext: &AiosExtension, args: &str) -> (request: Result<HubRequest, String>)
    ensures
        match request {
            Ok(r) => {
                &&& args@.len() > 0
                &&& r.method == HubMethod::Post
                &&& r.url@ == ext.hub_url@ + approve_path(trimmed(args@))
                &&& r.body == HubBody::EmptyObject
            },
            Err(usage) => args@.len() == 0 && usage@ == APPROVE_USAGE@,
        },
{
    if args.is_empty() {
        return Err(String::from_str(APPROVE_USAGE));
    }
    Ok(approve_session(ext, trim(args)))
}

/// A request that asks for what is at `path`.
fn get(ext: &AiosExtension, path: &str) -> (request: HubRequest)
    ensures
        request.method == HubMethod::Get,
        request.url@ == ext.hub_url@ + path@,
        request.body == HubBody::Nothing,
{
    HubRequest { method: HubMethod::Get, url: ext.url(path), body: HubBody::Nothing }
}

/// The request for the summary of the supervisors' analytics.
pub fn analytics(ext: &AiosExtension) -> (request: HubRequest)
    ensures
        request.method == HubMethod::Get,
        request.url@ == ext.hub_url@ + ANALYTICS_PATH@,
        request.body == HubBody::Nothing,
{
    get(ext, ANALYTICS_PATH)
}

/// The request for the debate templates.
pub fn templates(ext: &AiosExtension) -> (request: HubRequest)
    ensures
        request.method == HubMethod::Get,
        request.url@ == ext.hub_url@ + TEMPLATES_PATH@,
        request.body == HubBody::Nothing,
{
    get(ext, TEMPLATES_PATH)
}

/// The request for the git worktrees.
pub fn worktrees(ext: &AiosExtension) -> (request: HubRequest)
    ensures
        request.method == HubMethod::Get,
        request.url@ == ext.hub_url@ + WORKTREES_PATH@,
        request.body == HubBody::Nothing,
{
    get(ext, WORKTREES_PATH)
}

/// The request that asks the hub how it is.
pub fn health(ext: &AiosExtension) -> (request: HubRequest)
    ensures
        request.method == HubMethod::Get,
        request.url@ == ext.hub_url@ + HEALTH_PATH@,
        request.body == HubBody::Nothing,
{
    get(ext, HEALTH_PATH)
}

} // verus!
