use staged::models::RepoBadge;
use staged::repos::{
    check_timeline_clone, timeline_limit, timeline_ref, DEFAULT_TIMELINE_LIMIT,
    badge_after_update, home_items, needs_default_branch_backfill, should_remove_clone,
    clone_default_branch_updates, default_branch_timeline, detect_and_store_default_branch, git_identity,
    parse_commit_log, parse_i64, DefaultBranchAction, DefaultBranchEvent, DefaultBranchLookup,
};

fn badge(repo: &str, subpath: &str) -> RepoBadge {
    RepoBadge {
        github_repo: repo.to_string(),
        subpath: subpath.to_string(),
        short_name: "x".to_string(),
        hue_bits: 0,
        created_at: 0,
        pinned: false,
        pin_sort_order: None,
        default_branch: None,
    }
}

fn chars(s: &str) -> Vec<char> {
    s.chars().collect()
}

fn step(state: DefaultBranchLookup, event: DefaultBranchEvent) -> (DefaultBranchLookup, DefaultBranchAction) {
    detect_and_store_default_branch(state, event)
}

#[test]
fn cached_default_branch_is_returned_at_once() {
    let (s, a) = step(DefaultBranchLookup::Start, DefaultBranchEvent::Begin);
    assert!(matches!(a, DefaultBranchAction::ReadCache));
    let (s, a) = step(s, DefaultBranchEvent::CacheRead(Some("trunk".to_string())));
    assert!(matches!(a, DefaultBranchAction::Return(ref b) if b == "trunk"));
    assert!(matches!(s, DefaultBranchLookup::Done(ref b) if b == "trunk"));
}

#[test]
fn detected_default_branch_is_cached_then_returned() {
    let (s, _) = step(DefaultBranchLookup::Start, DefaultBranchEvent::Begin);
    let (s, a) = step(s, DefaultBranchEvent::CacheRead(None));
    assert!(matches!(a, DefaultBranchAction::CheckLocalClone));
    let (s, a) = step(s, DefaultBranchEvent::CloneChecked(Some(true)));
    assert!(matches!(a, DefaultBranchAction::DetectFromLocalClone));
    let (s, a) = step(s, DefaultBranchEvent::Detected(Ok("develop".to_string())));
    assert!(matches!(a, DefaultBranchAction::WriteCache(ref b) if b == "develop"));
    let (_, a) = step(s, DefaultBranchEvent::CacheWritten);
    assert!(matches!(a, DefaultBranchAction::Return(ref b) if b == "develop"));
}

#[test]
fn failed_detection_falls_back_to_main() {
    let (s, a) = step(DefaultBranchLookup::Detecting, DefaultBranchEvent::Detected(Err("offline".to_string())));
    assert!(matches!(a, DefaultBranchAction::WriteCache(ref b) if b == "main"));
    let (_, a) = step(s, DefaultBranchEvent::CacheWritten);
    assert!(matches!(a, DefaultBranchAction::Return(ref b) if b == "main"));
}

#[test]
fn without_local_clone_main_is_cached_and_returned() {
    let (s, _) = step(DefaultBranchLookup::Start, DefaultBranchEvent::Begin);
    let (s, _) = step(s, DefaultBranchEvent::CacheRead(None));
    let (s, a) = step(s, DefaultBranchEvent::CloneChecked(Some(false)));
    assert!(matches!(a, DefaultBranchAction::WriteCache(ref b) if b == "main"));
    let (_, a) = step(s, DefaultBranchEvent::CacheWritten);
    assert!(matches!(a, DefaultBranchAction::Return(ref b) if b == "main"));
    let (_, a) = step(DefaultBranchLookup::Detecting, DefaultBranchEvent::CloneChecked(None));
    assert!(matches!(a, DefaultBranchAction::WriteCache(ref b) if b == "main"));
}

#[test]
fn out_of_order_event_is_ignored() {
    let (s, a) = step(DefaultBranchLookup::Start, DefaultBranchEvent::CacheWritten);
    assert!(matches!(a, DefaultBranchAction::Ignore));
    assert!(matches!(s, DefaultBranchLookup::Start));
}

#[test]
fn fresh_clone_overwrites_every_badge_of_the_repo() {
    let badges = vec![badge("block/wallet", "apps/server"), badge("block/goose", ""), badge("block/wallet", "")];
    let (branch, subpaths) = clone_default_branch_updates(Ok("trunk".to_string()), &badges, "block/wallet");
    assert_eq!(branch, "trunk");
    assert_eq!(subpaths, vec!["apps/server".to_string(), String::new()]);
    let (branch, subpaths) = clone_default_branch_updates(Err("no remote".to_string()), &badges, "block/wallet");
    assert_eq!(branch, "main");
    assert!(subpaths.is_empty());
}

#[test]
fn i64_parsing_matches_str_parse() {
    for s in ["0", "42", "-7", "+15", "9223372036854775807", "-9223372036854775808", "", "-", "+", "1x", " 1",
        "9223372036854775808", "-9223372036854775809", "0001"]
    {
        let cs = chars(s);
        assert_eq!(parse_i64(&cs, 0, cs.len()), s.parse::<i64>().ok(), "{s}");
    }
    let cs = chars("ab123cd");
    assert_eq!(parse_i64(&cs, 2, 5), Some(123));
}

#[test]
fn commit_log_lines_become_timeline_items() {
    let out = "aaa|a|Fix bug|Ann|ann@x.org|1700000000\nbad line\n\nbbb|b|Subject | with pipe|Bob|bob@x.org|notanumber\r\n";
    let commits = parse_commit_log(out, 50);
    assert_eq!(commits.len(), 2);
    assert_eq!(commits[0].sha, "aaa");
    assert_eq!(commits[0].short_sha, "a");
    assert_eq!(commits[0].subject, "Fix bug");
    assert_eq!(commits[0].author, "Ann");
    assert_eq!(commits[0].author_email, "ann@x.org");
    assert_eq!(commits[0].timestamp, 1700000000);
    assert_eq!(commits[0].order, 49);
    assert_eq!(commits[0].id, None);
    assert!(!commits[0].is_own_commit);
    // The skipped line still counts for the order; the subject keeps
    // nothing after its own field, and the sixth field keeps the rest.
    assert_eq!(commits[1].sha, "bbb");
    assert_eq!(commits[1].subject, "Subject ");
    assert_eq!(commits[1].author, " with pipe");
    assert_eq!(commits[1].author_email, "Bob");
    assert_eq!(commits[1].timestamp, 0);
    assert_eq!(commits[1].order, 47);
}

#[test]
fn empty_log_gives_no_commits() {
    assert!(parse_commit_log("", 0).is_empty());
    assert!(parse_commit_log("\n\n", 50).is_empty());
}

#[test]
fn git_identity_is_trimmed_and_non_blank() {
    assert_eq!(git_identity(Some("  Ann Smith\n".to_string())), Some("Ann Smith".to_string()));
    assert_eq!(git_identity(Some("   ".to_string())), None);
    assert_eq!(git_identity(None), None);
}

#[test]
fn own_commits_are_marked_by_name_or_email() {
    let out = "a|a|s1|ANN|ann@x.org|1\nb|b|s2|Bob|BOB@X.ORG|2\nc|c|s3|Carl|carl@x.org|3\n";
    let t = default_branch_timeline(out, 3, Some("ann\n".to_string()), Some("bob@x.org".to_string()), "main".to_string());
    assert_eq!(t.default_branch, "main");
    assert_eq!(t.commits.len(), 3);
    assert!(t.commits[0].is_own_commit);
    assert!(t.commits[1].is_own_commit);
    assert!(!t.commits[2].is_own_commit);
    assert_eq!(t.commits[2].order, 0);
    let none = default_branch_timeline(out, 3, None, Some("  ".to_string()), "main".to_string());
    assert!(none.commits.iter().all(|c| !c.is_own_commit));
}

#[test]
fn pinning_backfills_only_missing_default_branch() {
    let mut b = badge("block/goose", "");
    assert!(needs_default_branch_backfill(Some(&b)));
    b.default_branch = Some("main".to_string());
    assert!(!needs_default_branch_backfill(Some(&b)));
    assert!(!needs_default_branch_backfill(None));
}

#[test]
fn home_items_pair_badges_with_clone_state() {
    let badges = vec![badge("block/goose", ""), badge("block/mark", "api")];
    let items = home_items(&badges, &[true, false]);
    assert_eq!(items.len(), 2);
    assert_eq!(items[0].badge.github_repo, "block/goose");
    assert!(items[0].has_local_clone);
    assert_eq!(items[1].badge.subpath, "api");
    assert!(!items[1].has_local_clone);
}

#[test]
fn badge_gone_after_update_error() {
    assert_eq!(
        badge_after_update("block/goose", "", None).map(|b| b.github_repo),
        Err("Badge not found after update for block/goose/".to_string())
    );
    assert_eq!(
        badge_after_update("block/goose", "", Some(badge("block/goose", ""))).map(|b| b.github_repo),
        Ok("block/goose".to_string())
    );
}

#[test]
fn clone_removed_only_when_no_context_is_left() {
    assert!(should_remove_clone(Some(0)));
    assert!(!should_remove_clone(Some(1)));
    assert!(!should_remove_clone(None));
}

#[test]
fn timeline_needs_a_local_clone() {
    assert_eq!(check_timeline_clone("block/goose", false, false), Err("Cannot determine clone path".to_string()));
    assert_eq!(
        check_timeline_clone("block/goose", true, false),
        Err("No local clone found for block/goose. Clone the repo first.".to_string())
    );
    assert_eq!(check_timeline_clone("block/goose", true, true), Ok(()));
    assert_eq!(timeline_limit(None), 50);
    assert_eq!(DEFAULT_TIMELINE_LIMIT, 50);
    assert_eq!(timeline_limit(Some(7)), 7);
    assert_eq!(timeline_ref("develop"), "origin/develop");
}

#[test]
fn commit_order_wraps_like_the_cast_for_huge_limits() {
    let commits = parse_commit_log("a|a|s|n|e|1\n", usize::MAX);
    assert_eq!(commits.len(), 1);
    assert_eq!(commits[0].order, (usize::MAX - 1) as i64);
}
