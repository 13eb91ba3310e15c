//! Post-processing of the text that comes back from the editor: the text is
//! split into lines, every line that begins with the comment marker `#` is
//! dropped, and the surviving lines are rejoined, each followed by a newline.

use vstd::prelude::*;

verus! {

/// Index of the first newline in `s`, or `s.len()` when there is none.
pub open spec fn first_nl(s: Seq<char>) -> nat
    decreases s.len(),
{
    if s.len() == 0 {
        0
    } else if s[0] == '\n' {
        0
    } else {
        (1 + first_nl(s.drop_first())) as nat
    }
}

/// A line that begins with the comment marker.
pub open spec fn is_comment(l: Seq<char>) -> bool {
    l.len() > 0 && l[0] == '#'
}

/// A carriage return at the end of a line, left by a `\r\n` ending, is
/// dropped with the ending itself.
pub open spec fn chop_cr(l: Seq<char>) -> Seq<char> {
    if l.len() > 0 && l.last() == '\r' {
        l.drop_last()
    } else {
        l
    }
}

/// What one line contributes to the output: nothing for a comment line,
/// the line followed by a newline otherwise.
pub open spec fn emit(l: Seq<char>) -> Seq<char> {
    if is_comment(l) {
        Seq::empty()
    } else {
        l.push('\n')
    }
}

/// The whole transform: comment lines dropped, every surviving line ended
/// with a newline, order kept. A final line ending is optional, and a
/// carriage return counts as part of a `\r\n` line ending only.
pub open spec fn strip_comments_spec(s: Seq<char>) -> Seq<char>
    decreases s.len(),
{
    if s.len() == 0 {
        Seq::empty()
    } else {
        let i = first_nl(s) as int;
        if i >= s.len() {
            emit(s)
        } else {
            emit(chop_cr(s.subrange(0, i))) + strip_comments_spec(
                s.subrange(i + 1, s.len() as int),
            )
        }
    }
}

/// The position found by a left-to-right scan is `first_nl`.
proof fn lemma_first_nl_is(s: Seq<char>, i: int)
    requires
        0 <= i <= s.len(),
        forall|k: int| 0 <= k < i ==> s[k] != '\n',
        i < s.len() ==> s[i] == '\n',
    ensures
        first_nl(s) == i,
    decreases s.len(),
{
    if i == 0 {
        if s.len() > 0 {
            assert(s[0] == '\n');
        }
    } else {
        assert(s[0] != '\n');
        let t = s.drop_first();
        assert forall|k: int| 0 <= k < i - 1 implies t[k] != '\n' by {
            assert(t[k] == s[k + 1]);
        }
        assert(i - 1 < t.len() ==> t[i - 1] == '\n');
        lemma_first_nl_is(t, i - 1);
    }
}

/// Strips comment lines out of an edited text, as the longer-description
/// stage keeps it.
pub fn strip_comment_lines(text: &str) -> (out: String)
    ensures
        out@ == strip_comments_spec(text@),
{
    let n = text.unicode_len();
    let mut out = String::new();
    let mut pos: usize = 0;
    proof {
        assert(text@.subrange(0, n as int) =~= text@);
        assert(out@ + strip_comments_spec(text@) =~= strip_comments_spec(text@));
    }
    while pos < n
        invariant
            pos <= n,
            n == text@.len(),
            out@ + strip_comments_spec(text@.subrange(pos as int, n as int)) == strip_comments_spec(
                text@,
            ),
        decreases n - pos,
    {
        let ghost rest = text@.subrange(pos as int, n as int);
        let mut j = pos;
        while j < n && text.get_char(j) != '\n'
            invariant
                pos <= j <= n,
                n == text@.len(),
                forall|k: int| pos <= k < j ==> text@[k] != '\n',
            decreases n - j,
        {
            j += 1;
        }
        proof {
            assert forall|k: int| 0 <= k < j - pos implies rest[k] != '\n' by {
                assert(rest[k] == text@[pos + k]);
            }
            if j < n {
                assert(rest[j - pos] == text@[j as int]);
            }
            lemma_first_nl_is(rest, j - pos);
        }
        if j >= n {
            let ghost out_before = out@;
            let line = text.substring_char(pos, n);
            proof {
                assert(line@ =~= rest);
                assert(strip_comments_spec(rest) == emit(rest));
            }
            if !(line.unicode_len() > 0 && line.get_char(0) == '#') {
                out.append(line);
                out.append("\n");
                proof {
                    reveal_strlit("\n");
                    assert(!is_comment(rest));
                    assert(line@.push('\n') =~= line@ + "\n"@);
                    assert(out@ =~= out_before + emit(rest));
                }
            } else {
                proof {
                    assert(is_comment(rest));
                    assert(out@ =~= out_before + emit(rest));
                }
            }
            pos = n;
            proof {
                assert(out@ == strip_comments_spec(text@));
                assert(text@.subrange(pos as int, n as int) =~= Seq::<char>::empty());
                assert(strip_comments_spec(text@.subrange(pos as int, n as int))
                    =~= Seq::<char>::empty());
                assert(out@ + strip_comments_spec(text@.subrange(pos as int, n as int)) =~= out@);
            }
        } else {
            let end = if j > pos && text.get_char(j - 1) == '\r' {
                j - 1
            } else {
                j
            };
            let line = text.substring_char(pos, end);
            let ghost raw = rest.subrange(0, j - pos);
            proof {
                assert(raw =~= text@.subrange(pos as int, j as int));
                if j > pos && text@[j - 1] == '\r' {
                    assert(raw.last() == '\r');
                    assert(line@ =~= chop_cr(raw));
                } else {
                    if raw.len() > 0 {
                        assert(raw.last() == text@[j - 1]);
                    }
                    assert(line@ =~= chop_cr(raw));
                }
            }
            let ghost out_before = out@;
            let keep = !(line.unicode_len() > 0 && line.get_char(0) == '#');
            if keep {
                out.append(line);
                out.append("\n");
                proof {
                    reveal_strlit("\n");
                    assert(line@.push('\n') =~= line@ + "\n"@);
                }
            }
            proof {
                let ghost tail = text@.subrange(j + 1, n as int);
                assert(rest.subrange(j - pos + 1, rest.len() as int) =~= tail);
                assert(rest.len() > 0);
                assert(strip_comments_spec(rest) == emit(chop_cr(raw)) + strip_comments_spec(tail));
                if keep {
                    assert(!is_comment(chop_cr(raw)));
                    assert(emit(chop_cr(raw)) == line@.push('\n'));
                    assert(out@ =~= out_before + emit(chop_cr(raw)));
                } else {
                    assert(is_comment(chop_cr(raw)));
                    assert(emit(chop_cr(raw)) =~= Seq::<char>::empty());
                    assert(out@ =~= out_before + emit(chop_cr(raw)));
                }
                assert(out@ + strip_comments_spec(tail) =~= out_before + strip_comments_spec(rest));
            }
            pos = j + 1;
            proof {
                assert(out@ + strip_comments_spec(text@.subrange(pos as int, n as int))
                    == strip_comments_spec(text@));
            }
        }
    }
    proof {
        assert(text@.subrange(pos as int, n as int) =~= text@.subrange(n as int, n as int));
        assert(strip_comments_spec(text@.subrange(n as int, n as int)) =~= Seq::<char>::empty());
        assert(out@ =~= out@ + strip_comments_spec(text@.subrange(pos as int, n as int)));
    }
    out
}

} // verus!
