//! Phases, kinds, and where a session works.

use tokscale_codex::activity::{
    age_ms, derive_phase, CodexActivityPhase, CodexSessionKind, ACTIVE_SESSION_WINDOW_MS,
    RECENT_TOKENS_WINDOW_MS,
};
use tokscale_codex::file::{codex_agent_name, session_name};
use tokscale_codex::repository::repo_name_from_cwd;

#[test]
fn windows_are_a_minute_and_ten_minutes() {
    assert_eq!(RECENT_TOKENS_WINDOW_MS, 60_000);
    assert_eq!(ACTIVE_SESSION_WINDOW_MS, 600_000);
}

#[test]
fn phases_have_names_and_priorities() {
    assert_eq!(CodexActivityPhase::Streaming.as_str(), "streaming");
    assert_eq!(CodexActivityPhase::Settling.as_str(), "settling");
    assert_eq!(CodexActivityPhase::Preparing.as_str(), "preparing");
    assert_eq!(CodexActivityPhase::Idle.as_str(), "idle");
    assert_eq!(CodexActivityPhase::Streaming.priority(), 0);
    assert_eq!(CodexActivityPhase::Settling.priority(), 1);
    assert_eq!(CodexActivityPhase::Preparing.priority(), 2);
    assert_eq!(CodexActivityPhase::Idle.priority(), 3);
}

#[test]
fn kinds_have_names() {
    assert_eq!(CodexSessionKind::Interactive.as_str(), "interactive");
    assert_eq!(CodexSessionKind::Headless.as_str(), "headless");
}

#[test]
fn instants_to_come_have_no_age() {
    assert_eq!(age_ms(1_000, 400), 600);
    assert_eq!(age_ms(1_000, 1_000), 0);
    assert_eq!(age_ms(400, 1_000), 0);
    assert_eq!(age_ms(i64::MAX, i64::MIN), i64::MAX);
}

#[test]
fn a_phase_ends_with_its_window() {
    assert_eq!(derive_phase(3_000, 0, Some(0)), CodexActivityPhase::Streaming);
    assert_eq!(derive_phase(3_001, 0, Some(0)), CodexActivityPhase::Settling);
    assert_eq!(derive_phase(20_000, 0, Some(0)), CodexActivityPhase::Settling);
    assert_eq!(derive_phase(20_001, 0, Some(0)), CodexActivityPhase::Idle);
    assert_eq!(derive_phase(20_001, 16_000, Some(0)), CodexActivityPhase::Preparing);
    assert_eq!(derive_phase(5_000, 0, None), CodexActivityPhase::Preparing);
    assert_eq!(derive_phase(5_001, 0, None), CodexActivityPhase::Idle);
    assert_eq!(derive_phase(0, 9, Some(9)), CodexActivityPhase::Streaming);
}

#[test]
fn activity_fades_with_time() {
    let mut last = 0;
    for now_ms in vec![0, 2_000, 4_000, 19_000, 21_000, 24_000, 40_000] {
        let priority = derive_phase(now_ms, 18_000, Some(0)).priority();
        assert!(priority >= last);
        last = priority;
    }
    assert_eq!(last, 3);
}

#[test]
fn headless_sessions_have_an_agent_of_their_own() {
    let bot = Some("bot".to_string());
    assert_eq!(codex_agent_name(true, &bot).as_deref(), Some("headless"));
    assert_eq!(codex_agent_name(false, &bot).as_deref(), Some("bot"));
    assert_eq!(codex_agent_name(false, &None).as_deref(), Some("Codex"));
}

#[test]
fn a_session_is_named_after_its_file() {
    assert_eq!(session_name(Some("rollout-1")), "rollout-1");
    assert_eq!(session_name(Some("")), "");
    assert_eq!(session_name(None), "unknown");
}

#[test]
fn a_repository_has_the_same_name_with_and_without_separators() {
    for cwd in vec!["/tmp/tokscale", "a\\b", "C:\\work\\repo", "C:", "x:y", "", "..", "/a/./."] {
        let name = repo_name_from_cwd(Some(cwd));
        assert_eq!(repo_name_from_cwd(Some(&format!("{}/", cwd))), name);
        assert_eq!(repo_name_from_cwd(Some(&format!("{}\\", cwd))), name);
        assert_ne!(name.as_deref(), Some(""));
    }
}

#[test]
fn a_directory_below_a_drive_has_a_name() {
    let name = repo_name_from_cwd(Some("C:\\work\\repo")).unwrap();
    assert!(name == "repo" || name == "C:\\work\\repo");
    assert_eq!(name == "repo", std::path::is_separator('\\'));
}

#[test]
fn a_directory_below_a_share_has_a_name() {
    assert_eq!(repo_name_from_cwd(Some("//server/share/repo")).as_deref(), Some("repo"));
    assert_eq!(repo_name_from_cwd(Some("//server/share/work/repo/")).as_deref(), Some("repo"));
    assert_eq!(repo_name_from_cwd(Some("//server/share/work/..")), None);
    assert_eq!(repo_name_from_cwd(Some("//server")).as_deref(), Some("server"));
    assert_eq!(repo_name_from_cwd(Some("///server/repo")).as_deref(), Some("repo"));
    let root = repo_name_from_cwd(Some("//server/share"));
    assert_eq!(root.is_none(), std::path::is_separator('\\'));
}

#[test]
fn a_repository_is_named_after_its_directory() {
    assert_eq!(repo_name_from_cwd(Some("/tmp/tokscale")).as_deref(), Some("tokscale"));
    assert_eq!(repo_name_from_cwd(Some("tokscale")).as_deref(), Some("tokscale"));
    assert_eq!(repo_name_from_cwd(Some("/tmp/tokscale/.")).as_deref(), Some("tokscale"));
    assert_eq!(repo_name_from_cwd(Some("/tmp//caf\u{e9}")).as_deref(), Some("caf\u{e9}"));
    assert_eq!(repo_name_from_cwd(Some("C:/work/repo")).as_deref(), Some("repo"));
    assert_eq!(repo_name_from_cwd(Some("/tmp/...")).as_deref(), Some("..."));
}

#[test]
fn separators_at_the_end_of_a_directory_do_not_count() {
    assert_eq!(repo_name_from_cwd(Some("/tmp/tokscale/")).as_deref(), Some("tokscale"));
    assert_eq!(repo_name_from_cwd(Some("/tmp/tokscale/\\//")).as_deref(), Some("tokscale"));
}

#[test]
fn some_directories_have_no_name() {
    assert_eq!(repo_name_from_cwd(None), None);
    assert_eq!(repo_name_from_cwd(Some("")), None);
    assert_eq!(repo_name_from_cwd(Some("/\\/")), None);
    assert_eq!(repo_name_from_cwd(Some(".")), None);
    assert_eq!(repo_name_from_cwd(Some("/tmp/..")), None);
}
