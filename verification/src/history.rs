//! A bounded, de-duplicating record of the short-description texts typed so
//! far in one session, newest first, kept only so that the terminal prompt
//! can offer them back through history navigation.

use vstd::prelude::*;

verus! {

/// Most entries the history holds.
pub open spec fn history_cap() -> int {
    4
}

/// Texts different from `e`: what survives recording `e`.
pub open spec fn differs_from(e: Seq<char>) -> spec_fn(Seq<char>) -> bool {
    |x: Seq<char>| x != e
}

/// The history after recording `e`: entries equal to `e` are dropped,
/// `e` goes to the front, and the record is cut back to the cap.
pub open spec fn history_after(h: Seq<Seq<char>>, e: Seq<char>) -> Seq<Seq<char>> {
    let kept = h.filter(differs_from(e));
    let kept_cut = if kept.len() <= history_cap() - 1 {
        kept
    } else {
        kept.take(history_cap() - 1)
    };
    seq![e] + kept_cut
}

/// Pairwise distinct entries.
pub open spec fn distinct(h: Seq<Seq<char>>) -> bool {
    forall|i: int, j: int| 0 <= i < j < h.len() ==> h[i] != h[j]
}

pub struct InputHistory {
    entries: Vec<String>,
}

impl View for InputHistory {
    type V = Seq<Seq<char>>;

    closed spec fn view(&self) -> Seq<Seq<char>> {
        self.entries.deep_view()
    }
}

impl InputHistory {
    /// No more entries than the cap, and no entry twice.
    pub open spec fn wf(&self) -> bool {
        self@.len() <= history_cap() && distinct(self@)
    }

    /// An empty history.
    pub fn new() -> (h: Self)
        ensures
            h@ == Seq::<Seq<char>>::empty(),
            h.wf(),
    {
        let h = InputHistory { entries: Vec::new() };
        proof {
            assert(h@ =~= Seq::<Seq<char>>::empty());
        }
        h
    }

    /// How many entries are recorded.
    pub fn len(&self) -> (n: usize)
        ensures
            n == self@.len(),
    {
        self.entries.len()
    }

    /// The entry at `pos`, newest first, or nothing past the end; what the
    /// prompt shows after `pos + 1` presses of the up arrow.
    pub fn read(&self, pos: usize) -> (r: Option<String>)
        ensures
            pos < self@.len() ==> (r matches Some(s) && s@ == self@[pos as int]),
            pos >= self@.len() ==> r is None,
    {
        if pos < self.entries.len() {
            Some(self.entries[pos].clone())
        } else {
            None
        }
    }

    /// Records one submitted text, dropping any equal entry, putting the
    /// new one in front, and cutting the record back to the cap.
    pub fn record(&mut self, entry: &String)
        requires
            old(self).wf(),
        ensures
            final(self)@ == history_after(old(self)@, entry@),
            final(self).wf(),
    {
        let ghost pred = differs_from(entry@);
        let n = self.entries.len();
        let mut kept: Vec<String> = Vec::new();
        let mut i: usize = 0;
        proof {
            lemma_filter_empty(Seq::<Seq<char>>::empty(), pred);
            assert(self@.take(0).filter(pred) =~= Seq::<Seq<char>>::empty().filter(pred)) by {
                assert(self@.take(0) =~= Seq::<Seq<char>>::empty());
            }
            assert(kept.deep_view() =~= Seq::<Seq<char>>::empty());
        }
        while i < n
            invariant
                i <= n,
                n == self@.len(),
                pred == differs_from(entry@),
                kept.deep_view() == self@.take(i as int).filter(pred),
            decreases n - i,
        {
            let ghost prefix = self@.take(i as int + 1);
            proof {
                assert(prefix.drop_last() =~= self@.take(i as int));
                assert(prefix.last() == self@[i as int]);
                lemma_filter_unfold(prefix, pred);
            }
            let e = &self.entries[i];
            if !e.eq(entry) {
                let ghost kept_before = kept.deep_view();
                kept.push(e.clone());
                proof {
                    assert(pred(self@[i as int]));
                    assert(kept.deep_view() =~= kept_before.push(self@[i as int]));
                    assert(kept.deep_view() == prefix.filter(pred));
                }
            } else {
                proof {
                    assert(!pred(self@[i as int]));
                    assert(kept.deep_view() == prefix.filter(pred));
                }
            }
            i += 1;
        }
        proof {
            assert(self@.take(n as int) =~= self@);
        }
        if kept.len() > 3 {
            let ghost kept_before = kept.deep_view();
            kept.truncate(3);
            proof {
                assert(kept.deep_view() =~= kept_before.take(3));
            }
        }
        let ghost kept_cut = kept.deep_view();
        kept.insert(0, entry.clone());
        proof {
            assert(kept.deep_view() =~= seq![entry@] + kept_cut);
        }
        self.entries = kept;
        proof {
            assert(self@ == history_after(old(self)@, entry@));
            lemma_filter_of_distinct(old(self)@, pred);
            let f = old(self)@.filter(pred);
            assert forall|j: int| 0 <= j < kept_cut.len() implies kept_cut[j] == f[j]
                && kept_cut[j] != entry@ by {
                old(self)@.lemma_filter_pred(pred, j);
            }
            assert forall|i: int, j: int| 0 <= i < j < self@.len() implies self@[i] != self@[j] by {
                assert(self@[j] == kept_cut[j - 1]);
                if i == 0 {
                    assert(self@[i] == entry@);
                } else {
                    assert(self@[i] == kept_cut[i - 1]);
                    assert(f[i - 1] != f[j - 1]);
                }
            }
            assert(distinct(self@));
        }
    }
}

/// Filtering an empty sequence gives an empty sequence.
proof fn lemma_filter_empty<A>(q: Seq<A>, pred: spec_fn(A) -> bool)
    requires
        q.len() == 0,
    ensures
        q.filter(pred) == q,
{
    reveal(Seq::filter);
}

/// One unfolding of the recursive definition of `filter`.
proof fn lemma_filter_unfold<A>(q: Seq<A>, pred: spec_fn(A) -> bool)
    requires
        q.len() > 0,
    ensures
        q.filter(pred) == (if pred(q.last()) {
            q.drop_last().filter(pred).push(q.last())
        } else {
            q.drop_last().filter(pred)
        }),
{
    reveal(Seq::filter);
}

/// Everything a filter lets through stood in the sequence.
proof fn lemma_filter_member<A>(s: Seq<A>, pred: spec_fn(A) -> bool, x: A)
    requires
        s.filter(pred).contains(x),
    ensures
        s.contains(x),
    decreases s.len(),
{
    if s.len() > 0 {
        lemma_filter_unfold(s, pred);
        if s.drop_last().filter(pred).contains(x) {
            lemma_filter_member(s.drop_last(), pred, x);
            let i = choose|i: int| 0 <= i < s.drop_last().len() && s.drop_last()[i] == x;
            assert(s[i] == x);
        } else {
            assert(x == s.last());
            assert(s[s.len() - 1] == x);
        }
    } else {
        lemma_filter_empty(s, pred);
    }
}

/// Filtering keeps distinctness.
proof fn lemma_filter_of_distinct(s: Seq<Seq<char>>, pred: spec_fn(Seq<char>) -> bool)
    requires
        distinct(s),
    ensures
        distinct(s.filter(pred)),
    decreases s.len(),
{
    if s.len() > 0 {
        let sub = s.drop_last();
        assert(distinct(sub)) by {
            assert(forall|i: int, j: int|
                0 <= i < j < sub.len() ==> sub[i] == s[i] && sub[j] == s[j]);
        }
        lemma_filter_of_distinct(sub, pred);
        lemma_filter_unfold(s, pred);
        if pred(s.last()) {
            let f = sub.filter(pred);
            if f.contains(s.last()) {
                lemma_filter_member(sub, pred, s.last());
                let i = choose|i: int| 0 <= i < sub.len() && sub[i] == s.last();
                assert(s[i] == s[s.len() - 1]);
                assert(false);
            }
            let g = f.push(s.last());
            assert(distinct(g)) by {
                assert forall|i: int, j: int| 0 <= i < j < g.len() implies g[i] != g[j] by {
                    if j < f.len() {
                        assert(g[i] == f[i] && g[j] == f[j]);
                    } else {
                        assert(g[j] == s.last());
                        assert(g[i] == f[i]);
                        if f[i] == s.last() {
                            assert(f.contains(f[i]));
                        }
                    }
                }
            }
        }
    } else {
        lemma_filter_empty(s, pred);
    }
}

} // verus!
