use memory_session::session::{
    log_file_name, session_slug, session_slug_now, snapshot_file_name, snapshot_record,
    snapshot_record_now, spec_home_parts, spec_subdirs, spec_ui_url, swarm_script_location,
    ui_candidates, ui_launch, ui_marker_file, SPEC_DEFAULT_PORT,
};

#[test]
fn slug_and_file_names() {
    let slug = session_slug("20240102T030405Z");
    assert_eq!(slug, "codex-session-20240102T030405Z");
    assert_eq!(snapshot_file_name(&slug), "codex-session-20240102T030405Z.json");
    assert_eq!(log_file_name(&slug), "codex-session-20240102T030405Z.log");
}

#[test]
fn slug_now_has_prefix_and_stamp() {
    let slug = session_slug_now().unwrap();
    let stamp = slug.strip_prefix("codex-session-").unwrap();
    assert_eq!(stamp.len(), 16);
    assert_eq!(&stamp[8..9], "T");
    assert!(stamp.ends_with('Z'));
}

#[test]
fn ui_url_uses_default_port() {
    assert_eq!(spec_ui_url(), "http://localhost:8840/");
    assert_eq!(SPEC_DEFAULT_PORT, 8840);
}

#[test]
fn five_subdirectories() {
    assert_eq!(
        spec_subdirs(),
        vec!["snapshots", "clarifications", "logs", "reports", "specs"]
    );
}

#[test]
fn spec_home_override_wins() {
    assert_eq!(spec_home_parts(Some("/tmp/sh"), Some("/home/u")), vec!["/tmp/sh"]);
    assert_eq!(
        spec_home_parts(None, Some("/home/u")),
        vec!["/home/u", ".codex", "extensions", "spec-tool"]
    );
    assert_eq!(
        spec_home_parts(None, None),
        vec![".", ".codex", "extensions", "spec-tool"]
    );
}

#[test]
fn ui_search_goes_upward() {
    let cwd = vec!["/".to_string(), "a".to_string(), "b".to_string()];
    let c = ui_candidates(Some("/ui"), &cwd);
    let tail = ["extensions", "spec-tool", "ui", "spec-flow-console"];
    assert_eq!(c.len(), 4);
    assert_eq!(c[0], vec!["/ui"]);
    let mut expect = vec!["/", "a", "b"];
    expect.extend(tail);
    assert_eq!(c[1], expect);
    let mut expect = vec!["/", "a"];
    expect.extend(tail);
    assert_eq!(c[2], expect);
    let mut expect = vec!["/"];
    expect.extend(tail);
    assert_eq!(c[3], expect);
    assert_eq!(ui_candidates(None, &cwd).len(), 3);
    assert_eq!(ui_marker_file(), "package.json");
}

#[test]
fn tool_location_under_root() {
    assert_eq!(
        swarm_script_location(Some("/opt/swarm")),
        Some(vec!["/opt/swarm".to_string(), "scripts".to_string(), "swarm".to_string()])
    );
}

#[test]
fn no_tool_root_means_no_tool() {
    assert_eq!(swarm_script_location(None), None);
}

#[test]
fn ui_launch_plan() {
    let l = ui_launch("/home/u/.codex/extensions/spec-tool", true);
    assert_eq!(l.program, "pnpm");
    assert_eq!(l.args, vec!["dev"]);
    assert_eq!(
        l.env,
        vec![
            ("PORT".to_string(), "8840".to_string()),
            (
                "CODEX_SPEC_TOOL_HOME".to_string(),
                "/home/u/.codex/extensions/spec-tool".to_string()
            ),
        ]
    );
    assert!(l.inherit_output);
    assert!(!ui_launch("/h", false).inherit_output);
}

#[test]
fn snapshot_record_fields() {
    let r = snapshot_record("slug-1", "/work", "2024-01-02T03:04:05.678Z");
    assert_eq!(r.feature, "slug-1");
    assert_eq!(r.repo, "/work");
    assert_eq!(r.paths, vec!["/work"]);
    assert_eq!(r.captured_at, "2024-01-02T03:04:05.678Z");
    assert_eq!(r.intent, "Codex -spec session");
    assert_eq!(r.context, "Auto-generated spec session from Codex -spec mode.");
    assert_eq!(r.meta_summary, "Codex session captured via -spec mode.");
    let n = snapshot_record_now("s", "/w").unwrap();
    assert_eq!(n.captured_at.len(), 24);
    assert!(n.captured_at.ends_with('Z'));
}
