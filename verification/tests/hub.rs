use terminal_sessions::clock::{millis_or_zero, timestamp_millis};
use terminal_sessions::hub::{
    analytics, approve, approve_session, architect, debate, debate_at, health, templates,
    worktrees, AiosExtension, ArchitectRequest, DebateRequest, DebateTask, HubBody, HubMethod,
    HubRequest, DEFAULT_HUB_URL, MAX_CONTEXT_CHARS,
};
use terminal_sessions::hub_report::{
    render_approval, render_architect, render_health, render_templates, render_worktrees,
    ArchitectSession, DebateTemplate, EditPlan, HealthResponse, WorktreeInfo, MAIN_MARK,
};
use terminal_sessions::path_utils::{expand_tilde_path, expand_trimmed};
use terminal_sessions::text::decimal;

#[test]
fn test_timestamp() {
    let ts = timestamp_millis();
    assert!(ts > 0);
}

#[test]
fn test_extension_creation() {
    let ext = AiosExtension::new(None);
    assert!(!ext.hub_url.is_empty());
}

#[test]
fn extension_uses_the_given_address() {
    let ext = AiosExtension::new(Some("http://hub:9".to_string()));
    assert_eq!(ext.hub_url, "http://hub:9");
    assert_eq!(ext.url("/api/health"), "http://hub:9/api/health");
    assert_eq!(AiosExtension::new(None).hub_url, DEFAULT_HUB_URL);
    assert_eq!(DEFAULT_HUB_URL, "http://localhost:3000");
}

#[test]
fn timestamp_is_after_2020_and_moves_forward() {
    let first = timestamp_millis();
    let second = timestamp_millis();
    assert!(first > 1_577_836_800_000);
    assert!(second >= first);
}

#[test]
fn millis_keep_their_low_64_bits() {
    assert_eq!(millis_or_zero(None), 0);
    assert_eq!(millis_or_zero(Some(0)), 0);
    assert_eq!(millis_or_zero(Some(1_700_000_000_000)), 1_700_000_000_000);
    assert_eq!(millis_or_zero(Some(u64::MAX as u128)), u64::MAX);
    assert_eq!(millis_or_zero(Some(u64::MAX as u128 + 6)), 5);
}

#[test]
fn debate_needs_a_description() {
    let ext = AiosExtension::new(None);
    assert_eq!(debate(&ext, "", "ctx"), Err("Usage: /aios-debate <description>".to_string()));
    assert_eq!(
        debate_at(&ext, "", "ctx", 7),
        Err("Usage: /aios-debate <description>".to_string())
    );
}

#[test]
fn debate_request_at_a_given_time() {
    let ext = AiosExtension::new(Some("http://h".to_string()));
    let request = debate_at(&ext, "tabs or spaces", "some context", 1_700_000_000_123);
    assert_eq!(
        request,
        Ok(HubRequest {
            method: HubMethod::Post,
            url: "http://h/api/council/debate".to_string(),
            body: HubBody::Debate(DebateRequest {
                task: DebateTask {
                    id: "zed-1700000000123".to_string(),
                    description: "tabs or spaces".to_string(),
                    files: Vec::new(),
                    context: "some context".to_string(),
                },
            }),
        })
    );
}

#[test]
fn debate_context_is_cut_after_ten_thousand_characters() {
    let ext = AiosExtension::new(None);
    let long = "é".repeat(MAX_CONTEXT_CHARS + 5);
    let request = debate_at(&ext, "x", &long, 0).expect("a description was given");
    match request.body {
        HubBody::Debate(body) => {
            assert_eq!(body.task.context, "é".repeat(10000));
            assert_eq!(body.task.id, "zed-0");
        }
        other => panic!("unexpected body {:?}", other),
    }
    let exact = "a".repeat(MAX_CONTEXT_CHARS);
    match debate_at(&ext, "x", &exact, 1).expect("a description was given").body {
        HubBody::Debate(body) => assert_eq!(body.task.context, exact),
        other => panic!("unexpected body {:?}", other),
    }
}

#[test]
fn debate_now_carries_a_timestamp() {
    let ext = AiosExtension::new(None);
    let request = debate(&ext, "topic", "").expect("a description was given");
    assert_eq!(request.url, "http://localhost:3000/api/council/debate");
    match request.body {
        HubBody::Debate(body) => {
            let stamp = body.task.id.strip_prefix("zed-").expect("prefix");
            assert!(stamp.parse::<u64>().expect("a number") > 1_577_836_800_000);
            assert_eq!(body.task.description, "topic");
        }
        other => panic!("unexpected body {:?}", other),
    }
}

#[test]
fn architect_request() {
    let ext = AiosExtension::new(None);
    assert_eq!(
        architect(&ext, ""),
        Err("Usage: /aios-architect <task description>".to_string())
    );
    assert_eq!(
        architect(&ext, "build it"),
        Ok(HubRequest {
            method: HubMethod::Post,
            url: "http://localhost:3000/api/architect/sessions".to_string(),
            body: HubBody::Architect(ArchitectRequest {
                task: "build it".to_string(),
                context: None,
                files: None,
            }),
        })
    );
}

#[test]
fn approve_request_trims_the_session_name() {
    let ext = AiosExtension::new(None);
    assert_eq!(approve(&ext, ""), Err("Usage: /aios-approve <session_id>".to_string()));
    assert_eq!(
        approve(&ext, "  s-42 \n"),
        Ok(HubRequest {
            method: HubMethod::Post,
            url: "http://localhost:3000/api/architect/sessions/s-42/approve".to_string(),
            body: HubBody::EmptyObject,
        })
    );
    assert_eq!(
        approve_session(&ext, "a b").url,
        "http://localhost:3000/api/architect/sessions/a b/approve"
    );
}

#[test]
fn plain_requests() {
    let ext = AiosExtension::new(Some("h".to_string()));
    let get = |url: &str| HubRequest {
        method: HubMethod::Get,
        url: url.to_string(),
        body: HubBody::Nothing,
    };
    assert_eq!(analytics(&ext), get("h/api/supervisor-analytics/summary"));
    assert_eq!(templates(&ext), get("h/api/debate-templates"));
    assert_eq!(worktrees(&ext), get("h/api/worktrees"));
    assert_eq!(health(&ext), get("h/api/health"));
}

#[test]
fn decimal_numbers() {
    assert_eq!(decimal(0), "0");
    assert_eq!(decimal(9), "9");
    assert_eq!(decimal(10), "10");
    assert_eq!(decimal(1234567890), "1234567890");
    assert_eq!(decimal(u64::MAX), "18446744073709551615");
}

#[test]
fn architect_report_with_everything() {
    let session = ArchitectSession {
        session_id: "s1".to_string(),
        status: "planned".to_string(),
        reasoning_output: Some("because".to_string()),
        plan: Some(EditPlan {
            description: "do it".to_string(),
            complexity: "low".to_string(),
            files: vec!["a.rs".to_string(), "b.rs".to_string()],
            steps: vec!["first".to_string(), "second".to_string()],
        }),
    };
    assert_eq!(
        render_architect(&session),
        "## Architect Session\n\n**Session ID:** `s1`\n**Status:** planned\n\
         \n### Reasoning Output\nbecause\n\
         \n### Edit Plan\n**Description:** do it\n**Complexity:** low\n\n**Files to modify:**\n\
         - `a.rs`\n- `b.rs`\n\n**Steps:**\n1. first\n2. second\n\
         \n> To approve this plan, use `/aios-approve s1`\n"
    );
}

#[test]
fn architect_report_without_plan() {
    let session = ArchitectSession {
        session_id: "s2".to_string(),
        status: "thinking".to_string(),
        reasoning_output: None,
        plan: None,
    };
    assert_eq!(
        render_architect(&session),
        "## Architect Session\n\n**Session ID:** `s2`\n**Status:** thinking\n"
    );
}

#[test]
fn architect_report_counts_steps_past_nine() {
    let steps: Vec<String> = (0..11).map(|i| format!("s{}", i)).collect();
    let session = ArchitectSession {
        session_id: "s".to_string(),
        status: "x".to_string(),
        reasoning_output: None,
        plan: Some(EditPlan {
            description: String::new(),
            complexity: String::new(),
            files: Vec::new(),
            steps,
        }),
    };
    let report = render_architect(&session);
    assert!(report.contains("\n9. s8\n10. s9\n11. s10\n\n> To approve"));
    assert!(report.contains("**Files to modify:**\n\n**Steps:**\n1. s0\n"));
}

#[test]
fn approval_report() {
    let session = ArchitectSession {
        session_id: "s3".to_string(),
        status: "editing".to_string(),
        reasoning_output: Some("ignored".to_string()),
        plan: None,
    };
    assert_eq!(
        render_approval(&session),
        "## Plan Approved\n\n**Session:** `s3`\n**Status:** editing\n\n\
         The editing phase has begun. Edits will be generated for the planned files."
    );
}

#[test]
fn templates_report() {
    assert_eq!(render_templates(&Vec::new()), "## Debate Templates\n\nNo templates available.\n");
    let list = vec![
        DebateTemplate {
            id: "t1".to_string(),
            name: "Design".to_string(),
            description: Some("A design talk".to_string()),
            supervisors: Some(vec!["a".to_string(), "b".to_string(), "c".to_string()]),
        },
        DebateTemplate {
            id: "t2".to_string(),
            name: "Bare".to_string(),
            description: None,
            supervisors: None,
        },
        DebateTemplate {
            id: "t3".to_string(),
            name: "Alone".to_string(),
            description: None,
            supervisors: Some(Vec::new()),
        },
    ];
    assert_eq!(
        render_templates(&list),
        "## Debate Templates\n\n\
         ### Design (`t1`)\nA design talk\nSupervisors: a, b, c\n\n\
         ### Bare (`t2`)\nNo description\n\n\
         ### Alone (`t3`)\nNo description\nSupervisors: \n\n"
    );
}

#[test]
fn worktrees_report() {
    assert_eq!(render_worktrees(&Vec::new()), "## Git Worktrees\n\nNo worktrees found.\n");
    let list = vec![
        WorktreeInfo {
            name: "main".to_string(),
            path: "/repo".to_string(),
            branch: "master".to_string(),
            is_main: true,
        },
        WorktreeInfo {
            name: "wip".to_string(),
            path: "/repo-wip".to_string(),
            branch: "feature".to_string(),
            is_main: false,
        },
    ];
    assert_eq!(MAIN_MARK, "\u{e2}\u{153}\u{201c}");
    assert_eq!(
        render_worktrees(&list),
        "## Git Worktrees\n\n| Name | Branch | Main | Path |\n|------|--------|------|------|\n\
         | main | master | \u{e2}\u{153}\u{201c} | `/repo` |\n| wip | feature |  | `/repo-wip` |\n"
    );
}

#[test]
fn health_report() {
    let ext = AiosExtension::new(None);
    let up = Ok(HealthResponse {
        status: "ok".to_string(),
        version: Some("1.2".to_string()),
        uptime: Some(3600),
    });
    assert_eq!(
        render_health(&ext, &up),
        "## AIOS Health\n\n**Status:** ok\n**Version:** 1.2\n**Uptime:** 3600s"
    );
    let bare = Ok(HealthResponse { status: "ok".to_string(), version: None, uptime: None });
    assert_eq!(
        render_health(&ext, &bare),
        "## AIOS Health\n\n**Status:** ok\n**Version:** unknown\n**Uptime:** 0s"
    );
    let down = Err("HTTP request failed: refused".to_string());
    assert_eq!(
        render_health(&ext, &down),
        "## AIOS Health\n\n**Status:** Disconnected\n**Error:** HTTP request failed: refused\n\n\
         Make sure AIOS hub is running at `http://localhost:3000`"
    );
}

#[test]
fn tilde_is_the_home_directory() {
    assert_eq!(expand_tilde_path("~", Some("/home/me")), "/home/me");
    assert_eq!(expand_tilde_path("  ~\n", Some("/home/me")), "/home/me");
    assert_eq!(expand_tilde_path("~", None), "/");
}

#[test]
fn tilde_and_separator_lead_below_home() {
    assert_eq!(expand_tilde_path("~/src/x", Some("/home/me")), "/home/me/src/x");
    assert_eq!(expand_tilde_path(" ~/src ", Some("/home/me")), "/home/me/src");
    assert_eq!(expand_tilde_path("~\\docs", Some("/home/me")), "/home/me/docs");
    assert_eq!(expand_tilde_path("~/a", None), "/a");
    assert_eq!(expand_tilde_path("~/", Some("/home/me")), "/home/me/");
    // A rest that is itself absolute takes the place of the home directory.
    assert_eq!(expand_tilde_path("~//etc", Some("/home/me")), "/etc");
}

#[test]
fn other_paths_are_only_trimmed() {
    assert_eq!(expand_tilde_path("", Some("/home/me")), "");
    assert_eq!(expand_tilde_path("   ", Some("/home/me")), "");
    assert_eq!(expand_tilde_path(" /usr/bin ", Some("/home/me")), "/usr/bin");
    assert_eq!(expand_tilde_path("~user/x", Some("/home/me")), "~user/x");
    assert_eq!(expand_tilde_path("a/~/b", Some("/home/me")), "a/~/b");
    assert_eq!(expand_trimmed("~é", Some("/h")), "~é");
    assert_eq!(expand_trimmed(" ~", Some("/h")), " ~");
}
