//! Word-sets, word records, and the join entity produced by flattening a
//! student's listing.
//!
//! A listing walk first resolves every word-set, then walks each set's
//! words; every returned record is tagged with the owning set's descriptor
//! as it stood at fetch time, and results across sets are concatenated in
//! set-processing order.

use vstd::prelude::*;
use crate::paging::Meta;

verus! {

/// One vocabulary topic owned by a student.
#[derive(Debug)]
pub struct WordSetData {
    pub id: u32,
    pub title: String,
    pub subtitle: String,
}

impl Clone for WordSetData {
    fn clone(&self) -> (res: Self)
        ensures
            res == self,
    {
        WordSetData { id: self.id, title: self.title.clone(), subtitle: self.subtitle.clone() }
    }
}

/// One page of a word-set listing.
#[derive(Debug)]
pub struct WordSet {
    pub meta: Meta,
    pub data: Vec<WordSetData>,
}

/// A leaf vocabulary record within a word-set.
#[derive(Debug)]
pub struct WordData {
    pub meaning_id: u64,
    pub created_at: String,
}

impl Clone for WordData {
    fn clone(&self) -> (res: Self)
        ensures
            res == self,
    {
        WordData { meaning_id: self.meaning_id, created_at: self.created_at.clone() }
    }
}

/// One page of a words listing.
#[derive(Debug)]
pub struct Words {
    pub meta: Meta,
    pub data: Vec<WordData>,
}

/// The join entity the rest of the pipeline operates on: a word together
/// with the descriptor of the set it was fetched from.
#[derive(Debug)]
pub struct WordOfSet {
    pub wordset: WordSetData,
    pub word: WordData,
}

impl Clone for WordOfSet {
    fn clone(&self) -> (res: Self)
        ensures
            res == self,
    {
        WordOfSet { wordset: self.wordset.clone(), word: self.word.clone() }
    }
}

/// Every record of `words` tagged with the descriptor `ws`.
pub open spec fn tag_words(ws: WordSetData, words: Seq<WordData>) -> Seq<WordOfSet> {
    words.map_values(|w: WordData| WordOfSet { wordset: ws, word: w })
}

impl WordOfSet {
    /// Tag each of `words` with the owning set's descriptor, keeping
    /// arrival order.
    pub fn new(wordset: &WordSetData, words: Vec<WordData>) -> (r: Vec<WordOfSet>)
        ensures
            r@ == tag_words(*wordset, words@),
    {
        let mut r: Vec<WordOfSet> = Vec::new();
        let n = words.len();
        let mut i: usize = 0;
        while i < n
            invariant
                n == words@.len(),
                i <= n,
                r@ == tag_words(*wordset, words@.take(i as int)),
            decreases n - i,
        {
            r.push(WordOfSet { wordset: wordset.clone(), word: words[i].clone() });
            proof {
                assert(words@.take(i + 1).drop_last() =~= words@.take(i as int));
                assert(words@.take(i + 1).last() == words@[i as int]);
                assert(r@ =~= tag_words(*wordset, words@.take(i + 1)));
            }
            i = i + 1;
        }
        proof {
            assert(words@.take(n as int) =~= words@);
        }
        r
    }
}

/// Accumulates the flattened listing of a whole sync pass: tagged word
/// records, concatenated across word-sets in set-processing order.
pub struct WordCollector {
    out: Vec<WordOfSet>,
}

impl WordCollector {
    pub closed spec fn spec_words(&self) -> Seq<WordOfSet> {
        self.out@
    }

    pub fn new() -> (c: WordCollector)
        ensures
            c.spec_words() == Seq::<WordOfSet>::empty(),
    {
        WordCollector { out: Vec::new() }
    }

    /// Record one batch of words fetched from `wordset`: each record is
    /// tagged with the set's descriptor and appended in arrival order.
    pub fn add_words(&mut self, wordset: &WordSetData, words: Vec<WordData>)
        ensures
            final(self).spec_words() == old(self).spec_words() + tag_words(*wordset, words@),
    {
        let mut tagged = WordOfSet::new(wordset, words);
        self.out.append(&mut tagged);
    }

    /// Hand out the flattened, tagged listing.
    pub fn into_words(self) -> (r: Vec<WordOfSet>)
        ensures
            r@ == self.spec_words(),
    {
        self.out
    }
}

} // verus!
