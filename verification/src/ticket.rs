//! Extraction of a ticket identifier from a branch name: the first
//! occurrence of at least three letters or underscores, a hyphen, and at
//! least one digit, as in `ABC-123` or `proj_x-42`.

use vstd::prelude::*;

verus! {

/// A letter or an underscore.
pub open spec fn is_word_char(c: char) -> bool {
    ('A' <= c && c <= 'Z') || ('a' <= c && c <= 'z') || c == '_'
}

/// A decimal digit.
pub open spec fn is_digit_char(c: char) -> bool {
    '0' <= c && c <= '9'
}

/// Length of the unbroken run of word characters starting at `i`.
pub open spec fn word_run(s: Seq<char>, i: int) -> nat
    decreases s.len() - i when 0 <= i <= s.len()
{
    if i < s.len() && is_word_char(s[i]) {
        (1 + word_run(s, i + 1)) as nat
    } else {
        0
    }
}

/// Length of the unbroken run of digits starting at `i`.
pub open spec fn digit_run(s: Seq<char>, i: int) -> nat
    decreases s.len() - i when 0 <= i <= s.len()
{
    if i < s.len() && is_digit_char(s[i]) {
        (1 + digit_run(s, i + 1)) as nat
    } else {
        0
    }
}

/// Whether a ticket token starts at `i`: a full run of at least three word
/// characters, then a hyphen, then at least one digit.
pub open spec fn match_at(s: Seq<char>, i: int) -> bool {
    let w = word_run(s, i) as int;
    w >= 3 && i + w < s.len() && s[i + w] == '-' && i + w + 1 < s.len() && is_digit_char(
        s[i + w + 1],
    )
}

/// Where the token starting at `i` ends: after the hyphen and the whole
/// run of digits behind it.
pub open spec fn match_end(s: Seq<char>, i: int) -> int {
    let d = i + word_run(s, i) + 1;
    d + digit_run(s, d)
}

/// The first position at or after `i` where a token starts, or `s.len()`
/// when there is none.
pub open spec fn first_match_from(s: Seq<char>, i: int) -> int
    decreases s.len() - i when 0 <= i <= s.len()
{
    if i >= s.len() {
        i
    } else if match_at(s, i) {
        i
    } else {
        first_match_from(s, i + 1)
    }
}

/// The ticket candidate a branch name yields: the first token, or nothing.
pub open spec fn ticket_spec(s: Seq<char>) -> Seq<char> {
    let i = first_match_from(s, 0);
    if i < s.len() {
        s.subrange(i, match_end(s, i))
    } else {
        Seq::empty()
    }
}

/// When no token starts before `i`, the search from the start and the
/// search from `i` agree.
proof fn lemma_first_match_skip(s: Seq<char>, i: int)
    requires
        0 <= i <= s.len(),
        forall|k: int| 0 <= k < i ==> !match_at(s, k),
    ensures
        first_match_from(s, 0) == first_match_from(s, i),
    decreases i,
{
    if i > 0 {
        lemma_first_match_skip(s, i - 1);
    }
}

/// An empty branch name yields an empty candidate. The front end hands a
/// failed branch lookup over as the empty name, so every such failure is
/// normalized to no candidate at all, never an error.
pub proof fn lemma_empty_branch_no_ticket(s: Seq<char>)
    requires
        s.len() == 0,
    ensures
        ticket_spec(s) == Seq::<char>::empty(),
{
}

/// Extracts the ticket candidate from a branch name: the first substring
/// of at least three letters or underscores, a hyphen, and the digits that
/// follow; an empty string when the branch holds no such token.
pub fn extract_ticket(branch: &str) -> (r: String)
    ensures
        r@ == ticket_spec(branch@),
{
    let n = branch.unicode_len();
    let mut i: usize = 0;
    while i < n
        invariant
            i <= n,
            n == branch@.len(),
            forall|k: int| 0 <= k < i ==> !match_at(branch@, k),
        decreases n - i,
    {
        let mut w: usize = 0;
        while i + w < n && is_word(branch.get_char(i + w))
            invariant
                i + w <= n,
                n == branch@.len(),
                word_run(branch@, i as int) == w + word_run(branch@, i + w),
            decreases n - (i + w),
        {
            w += 1;
        }
        proof {
            assert(word_run(branch@, i + w) == 0);
        }
        if w >= 3 && i + w < n && branch.get_char(i + w) == '-' && i + w + 1 < n && is_digit(
            branch.get_char(i + w + 1),
        ) {
            let start_d = i + w + 1;
            let mut d: usize = 0;
            while start_d + d < n && is_digit(branch.get_char(start_d + d))
                invariant
                    start_d + d <= n,
                    start_d == i + w + 1,
                    n == branch@.len(),
                    digit_run(branch@, start_d as int) == d + digit_run(branch@, start_d + d),
                decreases n - (start_d + d),
            {
                d += 1;
            }
            proof {
                assert(digit_run(branch@, start_d + d) == 0);
                assert(match_at(branch@, i as int));
                lemma_first_match_skip(branch@, i as int);
                assert(first_match_from(branch@, 0) == i);
                assert(match_end(branch@, i as int) == start_d + d);
            }
            let hit = branch.substring_char(i, start_d + d);
            proof {
                assert(hit@ =~= ticket_spec(branch@));
            }
            let r = hit.to_owned();
            return r;
        }
        proof {
            assert(!match_at(branch@, i as int));
        }
        i += 1;
    }
    proof {
        lemma_first_match_skip(branch@, n as int);
        assert(first_match_from(branch@, 0) == n);
        assert(ticket_spec(branch@) =~= Seq::<char>::empty());
    }
    let r = String::new();
    proof {
        assert(r@ =~= ticket_spec(branch@));
    }
    r
}

/// Exec test for a letter or an underscore.
fn is_word(c: char) -> (r: bool)
    ensures
        r == is_word_char(c),
{
    ('A' <= c && c <= 'Z') || ('a' <= c && c <= 'z') || c == '_'
}

/// Exec test for a decimal digit.
fn is_digit(c: char) -> (r: bool)
    ensures
        r == is_digit_char(c),
{
    '0' <= c && c <= '9'
}

} // verus!
