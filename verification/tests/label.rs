use git_prompt::label::{
    detached_name, display_name, exact_tag, format_label, progress_prefix, resolve_label,
    Description, InProgress, LabelError,
};

#[test]
fn branch_without_operation_is_the_label() {
    let label = resolve_label(None, Some("main"), None, None);
    assert_eq!(label, Ok("main".to_string()));
}

#[test]
fn branch_wins_over_tag_and_hash() {
    let label = resolve_label(None, Some("feature/x"), Some("v1.0"), Some("abc1234"));
    assert_eq!(label, Ok("feature/x".to_string()));
}

#[test]
fn exact_tag_is_the_label_on_a_detached_head() {
    let tag = exact_tag(Some(Description { depth: 0, name: Some("v1.0".to_string()) }));
    assert_eq!(tag, Some("v1.0".to_string()));
    let label = resolve_label(None, None, tag.as_deref(), Some("abc1234"));
    assert_eq!(label, Ok("v1.0".to_string()));
}

#[test]
fn tag_further_back_falls_through_to_the_hash() {
    let tag = exact_tag(Some(Description { depth: 3, name: Some("v1.0".to_string()) }));
    assert_eq!(tag, None);
    let label = resolve_label(None, None, tag.as_deref(), Some("abc1234"));
    assert_eq!(label, Ok("(detached abc1234)".to_string()));
}

#[test]
fn description_without_name_is_no_tag() {
    assert_eq!(exact_tag(Some(Description { depth: 0, name: None })), None);
    assert_eq!(exact_tag(None), None);
}

#[test]
fn detached_head_without_tag_shows_the_hash() {
    let label = resolve_label(None, None, None, Some("0a1b2c3"));
    assert_eq!(label, Ok("(detached 0a1b2c3)".to_string()));
    assert_eq!(detached_name("0a1b2c3"), "(detached 0a1b2c3)");
}

#[test]
fn nothing_known_is_unresolved() {
    assert_eq!(resolve_label(None, None, None, None), Err(LabelError::Unresolved));
    assert_eq!(
        resolve_label(Some(InProgress::Merge), None, None, None),
        Err(LabelError::Unresolved)
    );
    assert_eq!(LabelError::Unresolved.message(), "Failed to get branch/hash");
}

#[test]
fn display_name_follows_the_chain() {
    assert_eq!(display_name(Some("b"), Some("t"), Some("h")), Some("b".to_string()));
    assert_eq!(display_name(None, Some("t"), Some("h")), Some("t".to_string()));
    assert_eq!(display_name(None, None, Some("h")), Some("(detached h)".to_string()));
    assert_eq!(display_name(None, None, None), None);
}

#[test]
fn no_operation_leaves_the_name_unchanged() {
    assert_eq!(format_label(None, "main"), "main");
    assert_eq!(format_label(None, ""), "");
}

#[test]
fn template_apply_mailbox() {
    assert_eq!(format_label(Some(InProgress::ApplyMailbox), "main"), "Mailbox progress main");
}

#[test]
fn template_apply_mailbox_rebase() {
    assert_eq!(
        format_label(Some(InProgress::ApplyMailboxRebase), "main"),
        "Mailbox rebase progress main"
    );
}

#[test]
fn template_bisect() {
    assert_eq!(format_label(Some(InProgress::Bisect), "main"), "Bisect progress main");
}

#[test]
fn template_cherry_pick() {
    assert_eq!(format_label(Some(InProgress::CherryPick), "main"), "Cherry pick progress main");
}

#[test]
fn template_cherry_pick_sequence() {
    assert_eq!(
        format_label(Some(InProgress::CherryPickSequence), "main"),
        "Cherry pick sequence progress main"
    );
}

#[test]
fn template_merge() {
    assert_eq!(format_label(Some(InProgress::Merge), "main"), "Merge progress main");
}

#[test]
fn template_rebase() {
    assert_eq!(format_label(Some(InProgress::Rebase), "main"), "Rebase progress main");
}

#[test]
fn template_rebase_interactive() {
    assert_eq!(format_label(Some(InProgress::RebaseInteractive), "main"), "Rebasing main");
}

#[test]
fn template_revert() {
    assert_eq!(format_label(Some(InProgress::Revert), "main"), "Revert progress main");
}

#[test]
fn template_revert_sequence() {
    assert_eq!(
        format_label(Some(InProgress::RevertSequence), "main"),
        "Revert Sequence progress main"
    );
}

#[test]
fn template_wraps_tag_and_detached_names_too() {
    assert_eq!(
        resolve_label(Some(InProgress::Bisect), None, Some("v2"), None),
        Ok("Bisect progress v2".to_string())
    );
    assert_eq!(
        resolve_label(Some(InProgress::RebaseInteractive), None, None, Some("deadbee")),
        Ok("Rebasing (detached deadbee)".to_string())
    );
}

#[test]
fn prefixes_end_in_a_space() {
    assert_eq!(progress_prefix(InProgress::Merge), "Merge progress ");
    assert_eq!(progress_prefix(InProgress::RebaseInteractive), "Rebasing ");
}
