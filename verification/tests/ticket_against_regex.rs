use commit_prompt::ticket::extract_ticket;

// The extraction should agree with the usual regex reading of the pattern:
// the first occurrence of `[A-Za-z_]{3,}-[0-9]+`.
#[test]
fn extraction_agrees_with_regex() {
    let pattern = regex::Regex::new("([A-Za-z_]{3,}-[0-9]+)").unwrap();
    let branches = [
        "feature/ABC-123-fix",
        "main",
        "develop",
        "bugfix/proj_x-42",
        "ab-1",
        "abc-1",
        "one-1st/XYZ-77/ABC-123",
        "release-2024-10",
        "hotfix/_ab-9z",
        "UPPER_lower_123-456",
        "---abc-12---",
        "a_b_c-0009",
        "xx/yyy-",
        "zzz-12and-more-34",
    ];
    for branch in branches {
        let expected = match pattern.find(branch) {
            Some(hit) => hit.as_str(),
            None => "",
        };
        assert_eq!(extract_ticket(branch), expected, "branch {branch}");
    }
}
