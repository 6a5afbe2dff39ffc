//! The hub's answers, and the reports made of them for the reader.

use crate::hub::AiosExtension;
use crate::text::{decimal, decimal_text};
use vstd::prelude::*;
use vstd::string::StringExecFns;

verus! {

/// A plan of edits that an architect session proposes.
#[derive(Debug, Clone, PartialEq, Eq)]
pub struct EditPlan {
    pub description: String,
    pub complexity: String,
    pub files: Vec<String>,
    pub steps: Vec<String>,
}

/// An architect session as the hub reports it.
#[derive(Debug, Clone, PartialEq, Eq)]
pub struct ArchitectSession {
    pub session_id: String,
    pub status: String,
    pub reasoning_output: Option<String>,
    pub plan: Option<EditPlan>,
}

/// A debate template.
#[derive(Debug, Clone, PartialEq, Eq)]
pub struct DebateTemplate {
    pub id: String,
    pub name: String,
    pub description: Option<String>,
    pub supervisors: Option<Vec<String>>,
}

/// A git worktree.
#[derive(Debug, Clone, PartialEq, Eq)]
pub struct WorktreeInfo {
    pub name: String,
    pub path: String,
    pub branch: String,
    pub is_main: bool,
}

/// How the hub says it is.
#[derive(Debug, Clone, PartialEq, Eq)]
pub struct HealthResponse {
    pub status: String,
    pub version: Option<String>,
    pub uptime: Option<u64>,
}

/// The mark in the table of worktrees that stands beside the main one.
pub const MAIN_MARK: &'static str = "\u{e2}\u{153}\u{201c}";

/// One line for each of `files`.
pub open spec fn file_lines(files: Seq<String>) -> Seq<char>
    decreases files.len(),
{
    if files.len() == 0 {
        Seq::empty()
    } else {
        file_lines(files.drop_last()) + "- `"@ + files.last()@ + "`\n"@
    }
}

/// One numbered line for each of `steps`, counted from one.
pub open spec fn step_lines(steps: Seq<String>) -> Seq<char>
    decreases steps.len(),
{
    if steps.len() == 0 {
        Seq::empty()
    } else {
        step_lines(steps.drop_last()) + decimal_text(steps.len()) + ". "@ + steps.last()@ + "\n"@
    }
}

/// The part of an architect session's report that shows its plan.
pub open spec fn plan_text(plan: EditPlan, session_id: Seq<char>) -> Seq<char> {
    "\n### Edit Plan\n**Description:** "@ + plan.description@ + "\n**Complexity:** "@
        + plan.complexity@ + "\n\n**Files to modify:**\n"@ + file_lines(plan.files@)
        + "\n**Steps:**\n"@ + step_lines(plan.steps@)
        + "\n> To approve this plan, use `/aios-approve "@ + session_id + "`\n"@
}

/// The report of an architect session: its identifier and status, then its
/// reasoning and its plan where it has them.
pub open spec fn architect_text(session: ArchitectSession) -> Seq<char> {
    "## Architect Session\n\n**Session ID:** `"@ + session.session_id@ + "`\n**Status:** "@
        + session.status@ + "\n"@ + (match session.reasoning_output {
        Some(reasoning) => "\n### Reasoning Output\n"@ + reasoning@ + "\n"@,
        None => Seq::empty(),
    }) + (match session.plan {
        Some(plan) => plan_text(plan, session.session_id@),
        None => Seq::empty(),
    })
}

/// Appends one line for each of `files`.
fn push_file_lines(out: &mut String, files: &Vec<String>)
    ensures
        final(out)@ == old(out)@ + file_lines(files@),
{
    let mut i: usize = 0;
    assert(files@.take(0) =~= Seq::<String>::empty());
    assert(out@ =~= old(out)@ + file_lines(files@.take(0)));
    while i < files.len()
        invariant
            i <= files@.len(),
            out@ == old(out)@ + file_lines(files@.take(i as int)),
        decreases files@.len() - i,
    {
        let ghost before = out@;
        out.append("- `");
        out.append(files[i].as_str());
        out.append("`\n");
        proof {
            let next = files@.take(i + 1);
            assert(next.drop_last() =~= files@.take(i as int));
            assert(next.last() == files@[i as int]);
            assert(out@ =~= old(out)@ + file_lines(next));
        }
        i += 1;
    }
    assert(files@.take(i as int) =~= files@);
}

/// Appends one numbered line for each of `steps`.
fn push_step_lines(out: &mut String, steps: &Vec<String>)
    ensures
        final(out)@ == old(out)@ + step_lines(steps@),
{
    let mut i: usize = 0;
    assert(steps@.take(0) =~= Seq::<String>::empty());
    assert(out@ =~= old(out)@ + step_lines(steps@.take(0)));
    while i < steps.len()
        invariant
            i <= steps@.len(),
            out@ == old(out)@ + step_lines(steps@.take(i as int)),
        decreases steps@.len() - i,
    {
        let number = decimal(i as u64 + 1);
        out.append(number.as_str());
        out.append(". ");
        out.append(steps[i].as_str());
        out.append("\n");
        proof {
            let next = steps@.take(i + 1);
            assert(next.drop_last() =~= steps@.take(i as int));
            assert(next.last() == steps@[i as int]);
            assert(out@ =~= old(out)@ + step_lines(next));
        }
        i += 1;
    }
    assert(steps@.take(i as int) =~= steps@);
}

/// Writes the report of an architect session.
pub fn render_architect(session: &ArchitectSession) -> (report: String)
    ensures
        report@ == architect_text(*session),
{
    let mut out = String::from_str("## Architect Session\n\n**Session ID:** `");
    out.append(session.session_id.as_str());
    out.append("`\n**Status:** ");
    out.append(session.status.as_str());
    out.append("\n");
    match &session.reasoning_output {
        Some(reasoning) => {
            out.append("\n### Reasoning Output\n");
            out.append(reasoning.as_str());
            out.append("\n");
        },
        None => {},
    }
    let ghost head = out@;
    match &session.plan {
        Some(plan) => {
            out.append("\n### Edit Plan\n**Description:** ");
            out.append(plan.description.as_str());
            out.append("\n**Complexity:** ");
            out.append(plan.complexity.as_str());
            out.append("\n\n**Files to modify:**\n");
            push_file_lines(&mut out, &plan.files);
            out.append("\n**Steps:**\n");
            push_step_lines(&mut out, &plan.steps);
            out.append("\n> To approve this plan, use `/aios-approve ");
            out.append(session.session_id.as_str());
            out.append("`\n");
            assert(out@ =~= head + plan_text(*plan, session.session_id@));
        },
        None => {},
    }
    assert(out@ =~= architect_text(*session));
    out
}

/// The report that a plan was approved.
pub open spec fn approval_text(session: ArchitectSession) -> Seq<char> {
    "## Plan Approved\n\n**Session:** `"@ + session.session_id@ + "`\n**Status:** "@
        + session.status@
        + "\n\nThe editing phase has begun. Edits will be generated for the planned files."@
}

/// Writes the report that a plan was approved.
pub fn render_approval(session: &ArchitectSession) -> (report: String)
    ensures
        report@ == approval_text(*session),
{
    let mut out = String::from_str("## Plan Approved\n\n**Session:** `");
    out.append(session.session_id.as_str());
    out.append("`\n**Status:** ");
    out.append(session.status.as_str());
    out.append("\n\nThe editing phase has begun. Edits will be generated for the planned files.");
    out
}

/// The texts in `items`, with `", "` between them.
pub open spec fn comma_list(items: Seq<String>) -> Seq<char>
    decreases items.len(),
{
    if items.len() == 0 {
        Seq::empty()
    } else if items.len() == 1 {
        items[0]@
    } else {
        comma_list(items.drop_last()) + ", "@ + items.last()@
    }
}

/// Writes the texts in `items` with `", "` between them.
fn join_with_commas(items: &Vec<String>) -> (list: String)
    ensures
        list@ == comma_list(items@),
{
    let mut out = String::new();
    let mut i: usize = 0;
    assert(items@.take(0) =~= Seq::<String>::empty());
    while i < items.len()
        invariant
            i <= items@.len(),
            out@ == comma_list(items@.take(i as int)),
        decreases items@.len() - i,
    {
        if i > 0 {
            out.append(", ");
        }
        out.append(items[i].as_str());
        proof {
            let next = items@.take(i + 1);
            assert(next.drop_last() =~= items@.take(i as int));
            assert(next.last() == items@[i as int]);
            assert(out@ =~= comma_list(next));
        }
        i += 1;
    }
    assert(items@.take(i as int) =~= items@);
    out
}

/// The entry of one template in the list of templates.
pub open spec fn template_text(template: DebateTemplate) -> Seq<char> {
    "### "@ + template.name@ + " (`"@ + template.id@ + "`)\n"@ + (match template.description {
        Some(description) => description@,
        None => "No description"@,
    }) + "\n"@ + (match template.supervisors {
        Some(supervisors) => "Supervisors: "@ + comma_list(supervisors@) + "\n"@,
        None => Seq::empty(),
    }) + "\n"@
}

/// The entries of `templates`, one after the other.
pub open spec fn template_entries(templates: Seq<DebateTemplate>) -> Seq<char>
    decreases templates.len(),
{
    if templates.len() == 0 {
        Seq::empty()
    } else {
        template_entries(templates.drop_last()) + template_text(templates.last())
    }
}

/// The list of debate templates.
pub open spec fn templates_text(templates: Seq<DebateTemplate>) -> Seq<char> {
    "## Debate Templates\n\n"@ + if templates.len() == 0 {
        "No templates available.\n"@
    } else {
        template_entries(templates)
    }
}

/// Appends the entry of one template.
fn push_template(out: &mut String, template: &DebateTemplate)
    ensures
        final(out)@ == old(out)@ + template_text(*template),
{
    out.append("### ");
    out.append(template.name.as_str());
    out.append(" (`");
    out.append(template.id.as_str());
    out.append("`)\n");
    match &template.description {
        Some(description) => out.append(description.as_str()),
        None => out.append("No description"),
    }
    out.append("\n");
    match &template.supervisors {
        Some(supervisors) => {
            out.append("Supervisors: ");
            out.append(join_with_commas(supervisors).as_str());
            out.append("\n");
        },
        None => {},
    }
    out.append("\n");
    assert(out@ =~= old(out)@ + template_text(*template));
}

/// Writes the list of debate templates.
pub fn render_templates(templates: &Vec<DebateTemplate>) -> (report: String)
    ensures
        report@ == templates_text(templates@),
{
    let mut out = String::from_str("## Debate Templates\n\n");
    if templates.len() == 0 {
        out.append("No templates available.\n");
        return out;
    }
    let ghost head = out@;
    let mut i: usize = 0;
    assert(templates@.take(0) =~= Seq::<DebateTemplate>::empty());
    assert(out@ =~= head + template_entries(templates@.take(0)));
    while i < templates.len()
        invariant
            i <= templates@.len(),
            out@ == head + template_entries(templates@.take(i as int)),
        decreases templates@.len() - i,
    {
        push_template(&mut out, &templates[i]);
        proof {
            let next = templates@.take(i + 1);
            assert(next.drop_last() =~= templates@.take(i as int));
            assert(next.last() == templates@[i as int]);
            assert(out@ =~= head + template_entries(next));
        }
        i += 1;
    }
    assert(templates@.take(i as int) =~= templates@);
    out
}

/// The row of one worktree in the table of worktrees.
pub open spec fn worktree_row(worktree: WorktreeInfo) -> Seq<char> {
    "| "@ + worktree.name@ + " | "@ + worktree.branch@ + " | "@ + (if worktree.is_main {
        MAIN_MARK@
    } else {
        Seq::empty()
    }) + " | `"@ + worktree.path@ + "` |\n"@
}

/// The rows of `worktrees`, one after the other.
pub open spec fn worktree_rows(worktrees: Seq<WorktreeInfo>) -> Seq<char>
    decreases worktrees.len(),
{
    if worktrees.len() == 0 {
        Seq::empty()
    } else {
        worktree_rows(worktrees.drop_last()) + worktree_row(worktrees.last())
    }
}

/// The table of git worktrees.
pub open spec fn worktrees_text(worktrees: Seq<WorktreeInfo>) -> Seq<char> {
    "## Git Worktrees\n\n"@ + if worktrees.len() == 0 {
        "No worktrees found.\n"@
    } else {
        "| Name | Branch | Main | Path |\n"@ + "|------|--------|------|------|\n"@
            + worktree_rows(worktrees)
    }
}

/// Writes the table of git worktrees.
pub fn render_worktrees(worktrees: &Vec<WorktreeInfo>) -> (report: String)
    ensures
        report@ == worktrees_text(worktrees@),
{
    let mut out = String::from_str("## Git Worktrees\n\n");
    if worktrees.len() == 0 {
        out.append("No worktrees found.\n");
        return out;
    }
    out.append("| Name | Branch | Main | Path |\n");
    out.append("|------|--------|------|------|\n");
    let ghost head = out@;
    let mut i: usize = 0;
    assert(worktrees@.take(0) =~= Seq::<WorktreeInfo>::empty());
    assert(out@ =~= head + worktree_rows(worktrees@.take(0)));
    while i < worktrees.len()
        invariant
            i <= worktrees@.len(),
            out@ == head + worktree_rows(worktrees@.take(i as int)),
        decreases worktrees@.len() - i,
    {
        let worktree = &worktrees[i];
        out.append("| ");
        out.append(worktree.name.as_str());
        out.append(" | ");
        out.append(worktree.branch.as_str());
        out.append(" | ");
        if worktree.is_main {
            out.append(MAIN_MARK);
        }
        out.append(" | `");
        out.append(worktree.path.as_str());
        out.append("` |\n");
        proof {
            let next = worktrees@.take(i + 1);
            assert(next.drop_last() =~= worktrees@.take(i as int));
            assert(next.last() == worktrees@[i as int]);
            assert(out@ =~= head + worktree_rows(next));
        }
        i += 1;
    }
    assert(worktrees@.take(i as int) =~= worktrees@);
    assert(out@ =~= worktrees_text(worktrees@));
    out
}

/// The report on the hub's health: what the hub said, or that it could not
/// be reached at its address and why.
pub open spec fn health_text(hub_url: Seq<char>, outcome: Result<HealthResponse, String>) -> Seq<
    char,
> {
    match outcome {
        Ok(health) => "## AIOS Health\n\n**Status:** "@ + health.status@ + "\n**Version:** "@ + (
        match health.version {
            Some(version) => version@,
            None => "unknown"@,
        }) + "\n**Uptime:** "@ + decimal_text(
            match health.uptime {
                Some(seconds) => seconds as nat,
                None => 0,
            },
        ) + "s"@,
        Err(error) => "## AIOS Health\n\n**Status:** Disconnected\n**Error:** "@ + error@
            + "\n\nMake sure AIOS hub is running at `"@ + hub_url + "`"@,
    }
}

/// Writes the report on the hub's health.
pub fn render_health(ext: &AiosExtension, outcome: &Result<HealthResponse, String>) -> (report:
    String)
    ensures
        report@ == health_text(ext.hub_url@, *outcome),
{
    match outcome {
        Ok(health) => {
            let mut out = String::from_str("## AIOS Health\n\n**Status:** ");
            out.append(health.status.as_str());
            out.append("\n**Version:** ");
            match &health.version {
                Some(version) => out.append(version.as_str()),
                None => out.append("unknown"),
            }
            out.append("\n**Uptime:** ");
            let seconds = match health.uptime {
                Some(seconds) => seconds,
                None => 0,
            };
            out.append(decimal(seconds).as_str());
            out.append("s");
            out
        },
        Err(error) => {
            let mut out = String::from_str(
                "## AIOS Health\n\n**Status:** Disconnected\n**Error:** ",
            );
            out.append(error.as_str());
            out.append("\n\nMake sure AIOS hub is running at `");
            out.append(ext.hub_url.as_str());
            out.append("`");
            out
        },
    }
}

} // verus!
