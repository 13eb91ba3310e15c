use commit_prompt::budget::compute_budget;
use commit_prompt::history::InputHistory;
use commit_prompt::longdesc::strip_comment_lines;
use commit_prompt::ticket::extract_ticket;
use commit_prompt::validator::DescriptionValidator;
use commit_prompt::validator::Verdict;

#[test]
fn budget_without_scope() {
    assert_eq!(compute_budget("feat", "none", 0), 44);
    assert_eq!(compute_budget("fix", "anything", 0), 45);
}

#[test]
fn budget_with_scope() {
    assert_eq!(compute_budget("feat", "api", 1), 39);
    assert_eq!(compute_budget("refactor", "backend", 3), 31);
}

#[test]
fn validator_accepts_within_budget() {
    let mut v = DescriptionValidator::new(10);
    let r = v.check(&String::from("short"));
    assert!(matches!(r, Verdict::Accepted));
}

#[test]
fn validator_accepts_exactly_at_budget() {
    let mut v = DescriptionValidator::new(5);
    let r = v.check(&String::from("12345"));
    assert!(matches!(r, Verdict::Accepted));
}

#[test]
fn validator_force_override_round() {
    let mut v = DescriptionValidator::new(5);
    let long = String::from("too long for five");
    let r1 = v.check(&long);
    match r1 {
        Verdict::Rejected { budget, len } => {
            assert_eq!(budget, 5);
            assert_eq!(len, long.len());
        }
        Verdict::Accepted => panic!("over-budget text accepted on first submission"),
    }
    let r2 = v.check(&long);
    assert!(matches!(r2, Verdict::Accepted));
}

#[test]
fn validator_force_slot_resets_on_new_text() {
    let mut v = DescriptionValidator::new(5);
    let first = String::from("first over-budget text");
    let second = String::from("second over-budget text");
    assert!(matches!(v.check(&first), Verdict::Rejected { .. }));
    assert!(matches!(v.check(&second), Verdict::Rejected { .. }));
    // The slot now remembers the second text, not the first.
    assert!(matches!(v.check(&first), Verdict::Rejected { .. }));
    assert!(matches!(v.check(&first), Verdict::Accepted));
}

#[test]
fn strip_drops_comment_lines() {
    let out = strip_comment_lines("# hint\nbody1\n#also comment\nbody2");
    assert_eq!(out, "body1\nbody2\n");
}

#[test]
fn strip_keeps_empty_input_empty() {
    assert_eq!(strip_comment_lines(""), "");
}

#[test]
fn strip_keeps_blank_lines() {
    assert_eq!(strip_comment_lines("a\n\nb"), "a\n\nb\n");
}

#[test]
fn strip_handles_crlf_endings() {
    assert_eq!(strip_comment_lines("# c\r\nbody\r\n"), "body\n");
}

#[test]
fn strip_all_comments_gives_empty() {
    assert_eq!(strip_comment_lines("# a\n# b"), "");
}

#[test]
fn ticket_from_feature_branch() {
    assert_eq!(extract_ticket("feature/ABC-123-fix"), "ABC-123");
}

#[test]
fn ticket_from_plain_branch_is_empty() {
    assert_eq!(extract_ticket("main"), "");
}

#[test]
fn ticket_from_empty_branch_is_empty() {
    assert_eq!(extract_ticket(""), "");
}

#[test]
fn ticket_with_underscores() {
    assert_eq!(extract_ticket("proj_x-42"), "proj_x-42");
}

#[test]
fn ticket_needs_three_leading_characters() {
    assert_eq!(extract_ticket("ab-1"), "");
    assert_eq!(extract_ticket("abc-1"), "abc-1");
}

#[test]
fn ticket_takes_first_match_only() {
    assert_eq!(extract_ticket("one-1st/XYZ-77/ABC-123"), "one-1");
}

#[test]
fn history_keeps_newest_first() {
    let mut h = InputHistory::new();
    h.record(&String::from("a"));
    h.record(&String::from("b"));
    assert_eq!(h.len(), 2);
    assert_eq!(h.read(0), Some(String::from("b")));
    assert_eq!(h.read(1), Some(String::from("a")));
    assert_eq!(h.read(2), None);
}

#[test]
fn history_drops_duplicates() {
    let mut h = InputHistory::new();
    h.record(&String::from("a"));
    h.record(&String::from("b"));
    h.record(&String::from("a"));
    assert_eq!(h.len(), 2);
    assert_eq!(h.read(0), Some(String::from("a")));
    assert_eq!(h.read(1), Some(String::from("b")));
}

#[test]
fn history_is_capped_at_four() {
    let mut h = InputHistory::new();
    for s in ["one", "two", "three", "four", "five"] {
        h.record(&String::from(s));
    }
    assert_eq!(h.len(), 4);
    assert_eq!(h.read(0), Some(String::from("five")));
    assert_eq!(h.read(3), Some(String::from("two")));
    assert_eq!(h.read(4), None);
}
