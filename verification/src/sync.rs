//! The incremental watermark filter.
//!
//! A watermark is the highest `created_at` timestamp seen by an earlier
//! run. Records are compared against it lexicographically — correct for
//! the fixed-width, zero-padded, fixed-offset timestamp format the
//! service emits — and only strictly newer records pass. An absent
//! watermark compares as the empty string.

use vstd::prelude::*;
use crate::strutil::{chars_lt, str_lt, lemma_chars_lt_asymmetric, lemma_chars_lt_transitive,
    lemma_chars_lt_irreflexive};
use crate::words::WordOfSet;

verus! {

/// The character sequence a watermark compares as: its own contents, or
/// empty when absent.
pub open spec fn watermark_chars(date_time: Option<String>) -> Seq<char> {
    match date_time {
        Some(s) => s@,
        None => Seq::empty(),
    }
}

/// The records created strictly after the watermark, in their original
/// order.
pub open spec fn created_after_spec(items: Seq<WordOfSet>, watermark: Seq<char>) -> Seq<WordOfSet> {
    items.filter(|w: WordOfSet| chars_lt(watermark, w.word.created_at@))
}

/// Filtering is idempotent: records that survived the watermark once
/// survive it again unchanged.
pub proof fn lemma_created_after_idempotent(items: Seq<WordOfSet>, watermark: Seq<char>)
    ensures
        created_after_spec(created_after_spec(items, watermark), watermark)
            == created_after_spec(items, watermark),
    decreases items.len(),
{
    let pred = |w: WordOfSet| chars_lt(watermark, w.word.created_at@);
    if items.len() == 0 {
        assert(items.filter(pred) =~= items);
    } else {
        lemma_created_after_idempotent(items.drop_last(), watermark);
        reveal_with_fuel(Seq::filter, 2);
        if pred(items.last()) {
            assert(items.filter(pred) == items.drop_last().filter(pred).push(items.last()));
            assert(items.filter(pred).drop_last() =~= items.drop_last().filter(pred));
            assert(items.filter(pred).filter(pred) =~= items.filter(pred));
        } else {
            assert(items.filter(pred) == items.drop_last().filter(pred));
        }
    }
}

/// Incremental selection over a fetched listing.
pub trait NewWords: Sized {
    /// The records created strictly after the watermark.
    fn created_after(self, date_time: &Option<String>) -> Self;

    /// The highest `created_at` across the records, or none when there
    /// are no records.
    fn last_created(&self) -> Option<String>;
}

impl NewWords for Vec<WordOfSet> {
    fn created_after(self, date_time: &Option<String>) -> (r: Self)
        ensures
            r@ == created_after_spec(self@, watermark_chars(*date_time)),
    {
        proof {
            reveal_strlit("");
        }
        let ghost wm = watermark_chars(*date_time);
        let ghost pred = |w: WordOfSet| chars_lt(wm, w.word.created_at@);
        let mut r: Vec<WordOfSet> = Vec::new();
        let n = self.len();
        let mut i: usize = 0;
        proof {
            assert(self@.take(0).filter(pred) =~= r@);
        }
        while i < n
            invariant
                n == self@.len(),
                i <= n,
                wm == watermark_chars(*date_time),
                pred == (|w: WordOfSet| chars_lt(wm, w.word.created_at@)),
                r@ == self@.take(i as int).filter(pred),
            decreases n - i,
        {
            let keep = match date_time {
                Some(s) => str_lt(s.as_str(), self[i].word.created_at.as_str()),
                None => str_lt("", self[i].word.created_at.as_str()),
            };
            proof {
                reveal_strlit("");
                assert(keep == pred(self@[i as int]));
                assert(self@.take(i + 1).drop_last() =~= self@.take(i as int));
                assert(self@.take(i + 1).last() == self@[i as int]);
                reveal_with_fuel(Seq::filter, 2);
            }
            if keep {
                r.push(self[i].clone());
            }
            i = i + 1;
        }
        proof {
            assert(self@.take(n as int) =~= self@);
        }
        r
    }

    fn last_created(&self) -> (r: Option<String>)
        ensures
            match r {
                None => self@.len() == 0,
                Some(m) => {
                    &&& exists|i: int|
                        0 <= i < self@.len() && (#[trigger] self@[i]).word.created_at@ == m@
                    &&& forall|i: int|
                        0 <= i < self@.len() ==> !chars_lt(
                            m@,
                            (#[trigger] self@[i]).word.created_at@,
                        )
                },
            },
    {
        let n = self.len();
        if n == 0 {
            return None;
        }
        let mut best: usize = 0;
        let mut i: usize = 1;
        proof {
            lemma_chars_lt_irreflexive(self@[0].word.created_at@);
        }
        while i < n
            invariant
                n == self@.len(),
                best < i <= n,
                forall|j: int|
                    0 <= j < i ==> !chars_lt(
                        self@[best as int].word.created_at@,
                        (#[trigger] self@[j]).word.created_at@,
                    ),
            decreases n - i,
        {
            let cur_beats = str_lt(
                self[best].word.created_at.as_str(),
                self[i].word.created_at.as_str(),
            );
            if cur_beats {
                proof {
                    let old_best = self@[best as int].word.created_at@;
                    let cur = self@[i as int].word.created_at@;
                    lemma_chars_lt_asymmetric(old_best, cur);
                    lemma_chars_lt_irreflexive(cur);
                    assert forall|j: int| 0 <= j < i implies !chars_lt(
                        cur,
                        (#[trigger] self@[j]).word.created_at@,
                    ) by {
                        let other = self@[j].word.created_at@;
                        if chars_lt(cur, other) {
                            // other would beat the old best as well, which
                            // the invariant rules out
                            lemma_chars_lt_transitive(old_best, cur, other);
                        }
                    }
                }
                best = i;
            } else {
                proof {
                    let best_s = self@[best as int].word.created_at@;
                    let cur = self@[i as int].word.created_at@;
                    if chars_lt(best_s, cur) {
                        assert(false);
                    }
                }
            }
            i = i + 1;
        }
        Some(self[best].word.created_at.clone())
    }
}

} // verus!
