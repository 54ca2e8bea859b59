use staged::badges::{
    ai_short_name_for, badge_after_failed_create, badge_name_for, record_badge_name, choose_short_name, copy_badge, split_existing_badges, taken_names, badge_ai_key, badge_provider_id, build_badge_prompt, check_short_name_available,
    extract_answer_payload, select_preferred_provider, short_names_from_response, validate_short_name,
    PROMPT_ASSIGNED, PROMPT_INTRO, PROMPT_OUTRO, PROMPT_REQUEST,
};
use staged::models::RepoBadge;

fn ids(values: &[&str]) -> Vec<String> {
    values.iter().map(|value| value.to_string()).collect()
}

fn badge(repo: &str, subpath: &str, short_name: &str) -> RepoBadge {
    RepoBadge {
        github_repo: repo.to_string(),
        subpath: subpath.to_string(),
        short_name: short_name.to_string(),
        hue_bits: 120.0f64.to_bits(),
        created_at: 0,
        pinned: false,
        pin_sort_order: None,
        default_branch: None,
    }
}

#[test]
fn badge_provider_id_uses_explicit_provider() {
    assert_eq!(
        badge_provider_id(Some("codex"), &ids(&["goose", "amp"]), &ids(&["amp"])),
        Some("codex".to_string())
    );
}

#[test]
fn badge_provider_id_uses_recent_available_provider() {
    assert_eq!(
        badge_provider_id(None, &ids(&["goose", "amp"]), &ids(&["codex", "amp"])),
        Some("amp".to_string())
    );
}

#[test]
fn badge_provider_id_falls_back_to_first_available_provider() {
    assert_eq!(
        badge_provider_id(None, &ids(&["goose", "amp"]), &ids(&["codex"])),
        Some("goose".to_string())
    );
}

#[test]
fn badge_provider_id_trims_and_ignores_blank_provider() {
    assert_eq!(
        badge_provider_id(Some("  codex \n"), &ids(&["goose"]), &ids(&[])),
        Some("codex".to_string())
    );
    assert_eq!(
        badge_provider_id(Some("   "), &ids(&["goose", "amp"]), &ids(&["amp"])),
        Some("amp".to_string())
    );
    assert_eq!(badge_provider_id(None, &ids(&[]), &ids(&["amp"])), None);
}

#[test]
fn preferred_provider_takes_most_recent_available() {
    assert_eq!(
        select_preferred_provider(&ids(&["a", "b", "c"]), &ids(&["x", "c", "b"])),
        Some("c".to_string())
    );
    assert_eq!(select_preferred_provider(&ids(&[]), &ids(&[])), None);
}

#[test]
fn short_name_validation_messages() {
    assert_eq!(validate_short_name("  goose "), Ok("goose".to_string()));
    assert_eq!(validate_short_name("wlt.sv"), Ok("wlt.sv".to_string()));
    assert_eq!(
        validate_short_name("   "),
        Err("Short name must be 1-6 characters".to_string())
    );
    assert_eq!(
        validate_short_name("toolong"),
        Err("Short name must be 1-6 characters".to_string())
    );
    // Length is counted in bytes: three two-byte characters are six bytes,
    // four are eight.
    assert_eq!(
        validate_short_name("ééé"),
        Err("Short name must be lowercase alphanumeric (dots allowed)".to_string())
    );
    assert_eq!(
        validate_short_name("éééé"),
        Err("Short name must be 1-6 characters".to_string())
    );
    assert_eq!(
        validate_short_name("Goose"),
        Err("Short name must be lowercase alphanumeric (dots allowed)".to_string())
    );
    assert_eq!(
        validate_short_name("a.b.c"),
        Err("Short name may contain at most one dot, not at start or end".to_string())
    );
    assert_eq!(
        validate_short_name(".ab"),
        Err("Short name may contain at most one dot, not at start or end".to_string())
    );
    assert_eq!(
        validate_short_name("ab."),
        Err("Short name may contain at most one dot, not at start or end".to_string())
    );
}

#[test]
fn badge_key_includes_subpath_in_parentheses() {
    assert_eq!(badge_ai_key("block/goose", ""), "block/goose");
    assert_eq!(badge_ai_key("block/wallet", "apps/server"), "block/wallet (apps/server)");
}

#[test]
fn short_name_taken_by_another_badge() {
    let other = badge("block/wallet", "apps/server", "wlt");
    assert_eq!(
        check_short_name_available(Some(&other), "block/goose", "", "wlt"),
        Err("Short name 'wlt' is already used by block/wallet (apps/server)".to_string())
    );
    let plain = badge("block/goose", "", "goose");
    assert_eq!(
        check_short_name_available(Some(&plain), "block/mark", "", "goose"),
        Err("Short name 'goose' is already used by block/goose".to_string())
    );
    assert_eq!(check_short_name_available(Some(&plain), "block/goose", "", "goose"), Ok(()));
    assert_eq!(check_short_name_available(None, "block/goose", "", "goose"), Ok(()));
}

#[test]
fn badge_prompt_lists_assigned_and_requested_repos() {
    let existing = vec![badge("block/goose", "", "goose"), badge("block/wallet", "apps/server", "wlt.sv")];
    let new_repos = vec![
        ("block/mark".to_string(), String::new()),
        ("block/wallet".to_string(), "apps/mobile".to_string()),
    ];
    let prompt = build_badge_prompt(&existing, &new_repos);
    let expected = format!(
        "{}{}block/goose → goose\nblock/wallet (apps/server) → wlt.sv\n{}block/mark\nblock/wallet (apps/mobile)\n{}",
        PROMPT_INTRO, PROMPT_ASSIGNED, PROMPT_REQUEST, PROMPT_OUTRO
    );
    assert_eq!(prompt, expected);
    assert!(prompt.starts_with("Generate short badge names for GitHub repositories. Each name must be:\n- Max 6 characters\n"));
    assert!(prompt.contains("block/builderbot (apps/staged) → staged\n"));
    assert!(prompt.ends_with("{\"block/builderbot\": \"bbot\", \"block/wallet (apps/server)\": \"wlt.sv\"}\n"));
}

#[test]
fn badge_prompt_without_existing_badges_has_no_assigned_section() {
    let new_repos = vec![("square/square".to_string(), String::new())];
    let prompt = build_badge_prompt(&[], &new_repos);
    assert_eq!(prompt, format!("{}{}square/square\n{}", PROMPT_INTRO, PROMPT_REQUEST, PROMPT_OUTRO));
    assert!(!prompt.contains("Already assigned"));
}

#[test]
fn answer_payload_strips_code_fences() {
    assert_eq!(extract_answer_payload("  {\"a\": \"b\"} \n"), "{\"a\": \"b\"}");
    assert_eq!(extract_answer_payload("```json\n{\"a\": \"b\"}\n```"), "\n{\"a\": \"b\"}\n");
    assert_eq!(extract_answer_payload("```{\"a\": \"b\"}```"), "{\"a\": \"b\"}");
    // An opening fence without a closing one leaves the trimmed answer.
    assert_eq!(extract_answer_payload("```json {\"a\": \"b\"}"), "```json {\"a\": \"b\"}");
}

#[test]
fn ai_answer_keeps_only_valid_names() {
    let answer = "```json\n{\"block/goose\": \"goose\", \"block/mark\": \"Mark!\", \"block/wallet (apps/server)\": \"wlt.sv\"}\n```";
    let mut names = short_names_from_response(answer).expect("two valid names");
    names.sort();
    assert_eq!(
        names,
        vec![
            ("block/goose".to_string(), "goose".to_string()),
            ("block/wallet (apps/server)".to_string(), "wlt.sv".to_string()),
        ]
    );
}

#[test]
fn ai_answer_without_valid_names_is_none() {
    assert_eq!(short_names_from_response("{\"block/goose\": \"toolongname\"}"), None);
    assert_eq!(short_names_from_response("not json at all"), None);
    assert_eq!(short_names_from_response("{}"), None);
}

#[test]
fn ai_name_is_skipped_when_already_taken() {
    let names = vec![
        ("block/goose".to_string(), "goose".to_string()),
        ("block/mark".to_string(), "mark".to_string()),
    ];
    assert_eq!(
        ai_short_name_for(Some(&names), "block/goose", &ids(&["sq"])),
        Some("goose".to_string())
    );
    assert_eq!(ai_short_name_for(Some(&names), "block/mark", &ids(&["mark"])), None);
    assert_eq!(ai_short_name_for(Some(&names), "block/other", &ids(&[])), None);
    assert_eq!(ai_short_name_for(None, "block/goose", &ids(&[])), None);
}

#[test]
fn existing_badges_come_first_and_missing_repos_keep_their_order() {
    let repos = vec![
        ("block/goose".to_string(), String::new()),
        ("block/mark".to_string(), String::new()),
        ("block/wallet".to_string(), "apps/server".to_string()),
    ];
    let found = vec![None, Some(badge("block/mark", "", "mark")), None];
    let (existing, missing) = split_existing_badges(&repos, &found);
    assert_eq!(existing.len(), 1);
    assert_eq!(existing[0].short_name, "mark");
    assert_eq!(
        missing,
        vec![
            ("block/goose".to_string(), String::new()),
            ("block/wallet".to_string(), "apps/server".to_string()),
        ]
    );
}

#[test]
fn failed_badge_creation_falls_back_to_the_stored_badge() {
    let stored = badge("block/goose", "", "goose");
    assert_eq!(
        badge_after_failed_create("block/goose", "", Some(copy_badge(&stored))).map(|b| b.short_name),
        Ok("goose".to_string())
    );
    assert_eq!(
        badge_after_failed_create("block/wallet", "apps/server", None).map(|b| b.short_name),
        Err("Failed to create or find badge for block/wallet/apps/server".to_string())
    );
}

#[test]
fn new_badge_name_prefers_untaken_ai_proposal() {
    let names = vec![("block/goose".to_string(), "goose".to_string())];
    let existing = vec![badge("block/mark", "", "mark"), badge("block/x", "", "gse")];
    let taken = taken_names(&existing);
    assert_eq!(taken, ids(&["mark", "gse"]));
    assert_eq!(choose_short_name(Some(&names), "block/goose", &taken, "fallbk".to_string()), "goose");
    let mut taken2 = taken.clone();
    taken2.push("goose".to_string());
    assert_eq!(choose_short_name(Some(&names), "block/goose", &taken2, "goose2".to_string()), "goose2");
    assert_eq!(choose_short_name(None, "block/goose", &taken, "fb".to_string()), "fb");
}

#[test]
fn batch_names_stay_unique() {
    let names = vec![
        ("block/goose".to_string(), "goose".to_string()),
        ("block/goose (ui)".to_string(), "goose".to_string()),
    ];
    let mut taken = ids(&["mark"]);
    let first = badge_name_for(Some(&names), "block/goose", "", &taken, "gse".to_string());
    assert_eq!(first, "goose");
    record_badge_name(&mut taken, first);
    let second = badge_name_for(Some(&names), "block/goose", "ui", &taken, "gse.ui".to_string());
    assert_eq!(second, "gse.ui");
    record_badge_name(&mut taken, second);
    assert_eq!(taken, ids(&["mark", "goose", "gse.ui"]));
}
