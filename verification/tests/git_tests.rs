use ccometixline::config::SegmentId;
use ccometixline::engine::segments::git::{
    parse_status, CommandOutput, GitInfo, GitProbe, GitSegment, GitStatus,
};

fn text(s: &str) -> CommandOutput {
    CommandOutput::Text(s.to_string())
}

fn probe() -> GitProbe {
    GitProbe {
        is_repository: true,
        current_branch: text("main\n"),
        symbolic_ref: text("main\n"),
        status: text(""),
        ahead: text("0\n"),
        behind: text("0\n"),
        sha: text("abc1234\n"),
    }
}

fn info(status: GitStatus, dirty: u32, ahead: u32, behind: u32, sha: Option<&str>) -> GitInfo {
    GitInfo {
        branch: "main".to_string(),
        status,
        ahead,
        behind,
        sha: sha.map(|s| s.to_string()),
        dirty_count: dirty,
    }
}

#[test]
fn builders_set_flags() {
    let probe = probe();
    let plain = GitSegment::new();
    assert!(!plain.wants_sha());
    assert!(plain.get_git_info(&probe).expect("repository").sha.is_none());
    let with = GitSegment::new().with_sha(true);
    assert!(with.wants_sha());
    assert_eq!(with.get_git_info(&probe).expect("repository").sha.as_deref(), Some("abc1234"));
    let without = with.with_sha(false);
    assert!(!without.wants_sha());
    assert_eq!(GitSegment::new().id(), SegmentId::Git);
    assert!(!GitSegment::default().wants_sha());
}

#[test]
fn with_dirty_count_shows_the_count() {
    let dirty = info(GitStatus::Dirty, 3, 0, 0, None);
    assert_eq!(GitSegment::new().segment_data(&dirty).secondary, "●");
    assert_eq!(GitSegment::new().with_dirty_count(true).segment_data(&dirty).secondary, "●3");
    assert_eq!(
        GitSegment::new().with_dirty_count(true).with_dirty_count(false).segment_data(&dirty).secondary,
        "●"
    );
    let both = GitSegment::new().with_dirty_count(true).with_sha(true);
    assert!(both.wants_sha());
    assert_eq!(both.segment_data(&dirty).secondary, "●3");
}

#[test]
fn parse_status_counts_changed_files() {
    assert_eq!(parse_status(""), (GitStatus::Clean, 0));
    assert_eq!(parse_status("\n\n  \n"), (GitStatus::Clean, 0));
    assert_eq!(parse_status(" M src/lib.rs\n"), (GitStatus::Dirty, 1));
    assert_eq!(parse_status(" M a\n?? b\nA  c"), (GitStatus::Dirty, 3));
    assert_eq!(parse_status(" M a\r\n\r\n?? b\r\n"), (GitStatus::Dirty, 2));
    assert_eq!(parse_status("x"), (GitStatus::Dirty, 1));
}

#[test]
fn parse_status_sees_conflicts() {
    assert_eq!(parse_status("UU a\n M b\n"), (GitStatus::Conflicts, 2));
    assert_eq!(parse_status("AA a\n"), (GitStatus::Conflicts, 1));
    assert_eq!(parse_status("DD a\n"), (GitStatus::Conflicts, 1));
    assert_eq!(parse_status(" M ADDED\n"), (GitStatus::Conflicts, 1));
    assert_eq!(parse_status("UD a\nDU b\nAU c\n"), (GitStatus::Dirty, 3));
    assert_eq!(parse_status("U\nU\n"), (GitStatus::Dirty, 2));
}

#[test]
fn no_repository_no_info() {
    let mut p = probe();
    p.is_repository = false;
    let segment = GitSegment::new();
    assert!(!segment.is_git_repository(&p));
    assert!(segment.get_git_info(&p).is_none());
    assert!(segment.collect(&p).is_none());
}

#[test]
fn branch_falls_back_to_symbolic_ref() {
    let segment = GitSegment::new();
    let mut p = probe();
    assert_eq!(segment.get_branch(&p).as_deref(), Some("main"));
    p.current_branch = text("  \n");
    p.symbolic_ref = text(" feature/x \n");
    assert_eq!(segment.get_branch(&p).as_deref(), Some("feature/x"));
    p.current_branch = CommandOutput::Failed;
    assert_eq!(segment.get_branch(&p).as_deref(), Some("feature/x"));
    p.current_branch = CommandOutput::NotText;
    assert_eq!(segment.get_branch(&p), None);
    p.current_branch = CommandOutput::Failed;
    p.symbolic_ref = CommandOutput::Failed;
    assert_eq!(segment.get_branch(&p), None);
    p.symbolic_ref = CommandOutput::NotText;
    assert_eq!(segment.get_branch(&p), None);
    p.symbolic_ref = text("");
    assert_eq!(segment.get_branch(&p), None);
}

#[test]
fn detached_head_has_a_name() {
    let mut p = probe();
    p.current_branch = text("");
    p.symbolic_ref = CommandOutput::Failed;
    let i = GitSegment::new().get_git_info(&p).expect("repository");
    assert_eq!(i.branch, "detached");
}

#[test]
fn status_of_failed_command_is_clean() {
    let segment = GitSegment::new();
    let mut p = probe();
    p.status = CommandOutput::Failed;
    assert_eq!(segment.get_status(&p), (GitStatus::Clean, 0));
    p.status = CommandOutput::NotText;
    assert_eq!(segment.get_status(&p), (GitStatus::Clean, 0));
    p.status = text(" M a\nUU b\n");
    assert_eq!(segment.get_status(&p), (GitStatus::Conflicts, 2));
}

#[test]
fn commit_counts_are_parsed() {
    let segment = GitSegment::new();
    assert_eq!(segment.get_commit_count(&text("3\n")), 3);
    assert_eq!(segment.get_commit_count(&text(" 42 ")), 42);
    assert_eq!(segment.get_commit_count(&text("+7")), 7);
    assert_eq!(segment.get_commit_count(&text("4294967295")), u32::MAX);
    assert_eq!(segment.get_commit_count(&text("4294967296")), 0);
    assert_eq!(segment.get_commit_count(&text("-1")), 0);
    assert_eq!(segment.get_commit_count(&text("")), 0);
    assert_eq!(segment.get_commit_count(&text("three")), 0);
    assert_eq!(segment.get_commit_count(&CommandOutput::Failed), 0);
    assert_eq!(segment.get_commit_count(&CommandOutput::NotText), 0);
    let mut p = probe();
    p.ahead = text("2\n");
    p.behind = text("5\n");
    assert_eq!(segment.get_ahead_behind(&p), (2, 5));
}

#[test]
fn sha_is_trimmed_or_missing() {
    let segment = GitSegment::new().with_sha(true);
    let mut p = probe();
    assert_eq!(segment.get_sha(&p).as_deref(), Some("abc1234"));
    p.sha = text("\n");
    assert_eq!(segment.get_sha(&p), None);
    p.sha = CommandOutput::Failed;
    assert_eq!(segment.get_sha(&p), None);
    p.sha = CommandOutput::NotText;
    assert_eq!(segment.get_sha(&p), None);
}

#[test]
fn info_gathers_every_answer() {
    let mut p = probe();
    p.status = text(" M a\n M b\n");
    p.ahead = text("1");
    p.behind = text("2");
    let i = GitSegment::new().with_sha(true).get_git_info(&p).expect("repository");
    assert_eq!(i.branch, "main");
    assert_eq!(i.status, GitStatus::Dirty);
    assert_eq!(i.dirty_count, 2);
    assert_eq!(i.ahead, 1);
    assert_eq!(i.behind, 2);
    assert_eq!(i.sha.as_deref(), Some("abc1234"));
}

#[test]
fn segment_data_for_clean_tree() {
    let d = GitSegment::new().segment_data(&info(GitStatus::Clean, 0, 0, 0, None));
    assert_eq!(d.primary, "main");
    assert_eq!(d.secondary, "✓");
    assert_eq!(d.metadata.len(), 5);
    assert_eq!(d.metadata.get("branch").map(|s| s.as_str()), Some("main"));
    assert_eq!(d.metadata.get("status").map(|s| s.as_str()), Some("Clean"));
    assert_eq!(d.metadata.get("ahead").map(|s| s.as_str()), Some("0"));
    assert_eq!(d.metadata.get("behind").map(|s| s.as_str()), Some("0"));
    assert_eq!(d.metadata.get("dirty_count").map(|s| s.as_str()), Some("0"));
    assert!(d.metadata.get("sha").is_none());
}

#[test]
fn segment_data_lists_every_part() {
    let segment = GitSegment::new().with_dirty_count(true);
    let d = segment.segment_data(&info(GitStatus::Conflicts, 4, 2, 7, Some("abc1234")));
    assert_eq!(d.secondary, "⚠4 ↑2 ↓7 abc1234");
    assert_eq!(d.metadata.len(), 6);
    assert_eq!(d.metadata.get("status").map(|s| s.as_str()), Some("Conflicts"));
    assert_eq!(d.metadata.get("ahead").map(|s| s.as_str()), Some("2"));
    assert_eq!(d.metadata.get("behind").map(|s| s.as_str()), Some("7"));
    assert_eq!(d.metadata.get("dirty_count").map(|s| s.as_str()), Some("4"));
    assert_eq!(d.metadata.get("sha").map(|s| s.as_str()), Some("abc1234"));
    let d = segment.segment_data(&info(GitStatus::Dirty, 0, 0, 3, None));
    assert_eq!(d.secondary, "● ↓3");
    assert_eq!(d.metadata.get("status").map(|s| s.as_str()), Some("Dirty"));
    let d = GitSegment::new().segment_data(&info(GitStatus::Conflicts, 9, 1, 0, None));
    assert_eq!(d.secondary, "⚠ ↑1");
}

#[test]
fn collect_goes_from_answers_to_content() {
    let mut p = probe();
    p.status = text("?? new\n");
    p.ahead = text("1\n");
    let d = GitSegment::new().with_dirty_count(true).with_sha(true).collect(&p).expect("repository");
    assert_eq!(d.primary, "main");
    assert_eq!(d.secondary, "●1 ↑1 abc1234");
    let d = GitSegment::new().collect(&p).expect("repository");
    assert_eq!(d.secondary, "● ↑1");
    assert!(d.metadata.get("sha").is_none());
}
