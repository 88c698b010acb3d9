use titlebot::mention::complete_mention;
use titlebot::mention::entities_well_formed;
use titlebot::mention::extract_mention;
use titlebot::mention::Entity;
use titlebot::mention::EntityKind;
use titlebot::mention::ExtractError;
use titlebot::mention::LookupOutcome;
use titlebot::mention::MentionRef;

fn resolved(user_id: u64, display_name: &str, offset: u32, length: u32) -> Entity {
    Entity {
        kind: EntityKind::ResolvedMention { user_id, display_name: display_name.to_string() },
        offset,
        length,
    }
}

fn bare(offset: u32, length: u32) -> Entity {
    Entity { kind: EntityKind::BareMention, offset, length }
}

fn other(offset: u32, length: u32) -> Entity {
    Entity { kind: EntityKind::Other, offset, length }
}

#[test]
fn no_mention_entity_fails_extraction() {
    let text = "/title nobody here";
    let entities = vec![other(0, 6), other(7, 6)];
    assert!(entities_well_formed(text, &entities));
    let r = extract_mention(text, &entities);
    assert_eq!(r.err(), Some(ExtractError::NoMentionFound));
}

#[test]
fn empty_entity_list_fails_extraction() {
    let r = extract_mention("/title @a b", &Vec::new());
    assert_eq!(r.err(), Some(ExtractError::NoMentionFound));
}

#[test]
fn resolved_mention_carries_identity_and_title() {
    let text = "@alice set this";
    let entities = vec![resolved(42, "alice", 2, 5)];
    assert!(entities_well_formed(text, &entities));
    let plan = extract_mention(text, &entities).unwrap();
    match &plan.mention {
        MentionRef::Resolved { user_id, display_name } => {
            assert_eq!(*user_id, 42);
            assert_eq!(display_name, "alice");
        }
        MentionRef::Bare { .. } => panic!("expected a resolved mention"),
    }
    assert_eq!(plan.title, "set this");
    let req = complete_mention(plan, LookupOutcome::NotNeeded, false).unwrap();
    assert_eq!(req.target.user_id, 42);
    assert_eq!(req.target.display_name, "alice");
    assert_eq!(req.title, "set this");
}

#[test]
fn bare_mention_not_found_is_resolution_error() {
    let text = "/untitle @bob";
    let entities = vec![bare(9, 4)];
    assert!(entities_well_formed(text, &entities));
    let plan = extract_mention(text, &entities).unwrap();
    match &plan.mention {
        MentionRef::Bare { username } => assert_eq!(username, "bob"),
        MentionRef::Resolved { .. } => panic!("expected a bare mention"),
    }
    let r = complete_mention(plan, LookupOutcome::NotFound, true);
    assert_eq!(r.err(), Some(ExtractError::ResolutionError));
}

#[test]
fn bare_mention_transport_failure_is_surfaced() {
    let text = "/title @bob captain";
    let entities = vec![bare(7, 4)];
    let plan = extract_mention(text, &entities).unwrap();
    let r = complete_mention(plan, LookupOutcome::TransportFailed, false);
    assert_eq!(r.err(), Some(ExtractError::TransportError));
}

#[test]
fn bare_mention_found_builds_the_request() {
    let text = "/title @bob captain";
    let entities = vec![bare(7, 4)];
    let plan = extract_mention(text, &entities).unwrap();
    let req = complete_mention(plan, LookupOutcome::Found { user_id: 7 }, false).unwrap();
    assert_eq!(req.target.user_id, 7);
    assert_eq!(req.target.display_name, "bob");
    assert_eq!(req.title, "captain");
}

#[test]
fn missing_title_is_rejected_for_title_set() {
    let text = "/title @bob   ";
    let entities = vec![bare(7, 4)];
    let plan = extract_mention(text, &entities).unwrap();
    let r = complete_mention(plan, LookupOutcome::Found { user_id: 7 }, false);
    assert_eq!(r.err(), Some(ExtractError::MissingTitle));
}

#[test]
fn title_clear_accepts_no_trailing_text() {
    let text = "/untitle @bob";
    let entities = vec![bare(9, 4)];
    let plan = extract_mention(text, &entities).unwrap();
    let req = complete_mention(plan, LookupOutcome::Found { user_id: 7 }, true).unwrap();
    assert_eq!(req.title, "");
}

#[test]
fn title_clear_ignores_trailing_text() {
    let text = "/untitle @bob whatever";
    let entities = vec![bare(9, 4)];
    let plan = extract_mention(text, &entities).unwrap();
    let req = complete_mention(plan, LookupOutcome::Found { user_id: 7 }, true).unwrap();
    assert_eq!(req.title, "");
}

#[test]
fn offsets_are_utf16_units_not_bytes() {
    // the emoji weighs two UTF-16 units (four UTF-8 bytes), so the mention
    // starts at unit 3; byte arithmetic would misindex this text
    let text = "\u{1F600} @bob hi";
    let entities = vec![bare(3, 4)];
    assert!(entities_well_formed(text, &entities));
    let plan = extract_mention(text, &entities).unwrap();
    match &plan.mention {
        MentionRef::Bare { username } => assert_eq!(username, "bob"),
        MentionRef::Resolved { .. } => panic!("expected a bare mention"),
    }
    assert_eq!(plan.title, "hi");
}

#[test]
fn cjk_text_before_the_mention_counts_one_unit_per_char() {
    let text = "標題 @alice 隊長";
    let entities = vec![resolved(9, "alice", 3, 6)];
    assert!(entities_well_formed(text, &entities));
    let plan = extract_mention(text, &entities).unwrap();
    assert_eq!(plan.title, "隊長");
}

#[test]
fn first_mention_wins_later_entities_are_ignored() {
    let text = "@ann @ben t";
    let entities = vec![other(0, 0), bare(0, 4), bare(5, 4)];
    let plan = extract_mention(text, &entities).unwrap();
    match &plan.mention {
        MentionRef::Bare { username } => assert_eq!(username, "ann"),
        MentionRef::Resolved { .. } => panic!("expected a bare mention"),
    }
    assert_eq!(plan.title, "@ben t");
}

#[test]
fn leading_whitespace_of_the_title_is_trimmed() {
    let text = "@alice \u{3000}\t 隊長";
    let entities = vec![resolved(1, "alice", 0, 6)];
    let plan = extract_mention(text, &entities).unwrap();
    assert_eq!(plan.title, "隊長");
}

#[test]
fn span_inside_a_surrogate_pair_is_rejected() {
    let text = "\u{1F600}x";
    let entities = vec![bare(1, 1)];
    assert!(!entities_well_formed(text, &entities));
}

#[test]
fn span_past_the_end_is_rejected() {
    let text = "@bob";
    let entities = vec![bare(0, 9)];
    assert!(!entities_well_formed(text, &entities));
}

#[test]
fn mention_at_the_very_end_has_an_empty_title() {
    let text = "/untitle @bob";
    let entities = vec![bare(9, 4)];
    let plan = extract_mention(text, &entities).unwrap();
    assert_eq!(plan.title, "");
}
