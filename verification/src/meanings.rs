//! Dictionary meanings, the batch-lookup request they are fetched with,
//! and the join of fetched words against their meanings.

use vstd::prelude::*;
use crate::errors::Error;
use crate::strutil::{dec_chars, u64_to_dec};
use crate::token::curr_millis;
use crate::words::{WordData, WordOfSet};

verus! {

/// A translation of a meaning's text.
#[derive(Debug)]
pub struct Translation {
    pub text: String,
}

impl Clone for Translation {
    fn clone(&self) -> (res: Self)
        ensures
            res == self,
    {
        Translation { text: self.text.clone() }
    }
}

/// A definition or an example sentence, with its pronunciation audio.
#[derive(Debug)]
pub struct MeaningDefinition {
    pub text: String,
    pub sound_url: String,
}

impl Clone for MeaningDefinition {
    fn clone(&self) -> (res: Self)
        ensures
            res == self,
    {
        MeaningDefinition { text: self.text.clone(), sound_url: self.sound_url.clone() }
    }
}

/// An illustration of a meaning.
#[derive(Debug)]
pub struct MeaningImage {
    pub url: String,
}

impl Clone for MeaningImage {
    fn clone(&self) -> (res: Self)
        ensures
            res == self,
    {
        MeaningImage { url: self.url.clone() }
    }
}

/// An alternative reading of a word.
#[derive(Debug)]
pub struct MeaningAlternative {
    pub text: String,
    pub translation: Option<Translation>,
}

impl Clone for MeaningAlternative {
    fn clone(&self) -> (res: Self)
        ensures
            res == self,
    {
        MeaningAlternative {
            text: self.text.clone(),
            translation: match &self.translation {
                Some(t) => Some(t.clone()),
                None => None,
            },
        }
    }
}

/// A dictionary entry, keyed by a word's meaning id and fetched in batch.
#[derive(Debug)]
pub struct Meaning {
    pub alternatives: Option<Vec<MeaningAlternative>>,
    pub definition: MeaningDefinition,
    pub examples: Vec<MeaningDefinition>,
    pub id: u64,
    pub images: Vec<MeaningImage>,
    pub sound_url: String,
    pub text: String,
    pub transcription: String,
    pub translation: Translation,
}

fn clone_alternatives(v: &Vec<MeaningAlternative>) -> (res: Vec<MeaningAlternative>)
    ensures
        res@ == v@,
{
    let mut res: Vec<MeaningAlternative> = Vec::new();
    let n = v.len();
    let mut i: usize = 0;
    while i < n
        invariant
            n == v@.len(),
            i <= n,
            res@ == v@.take(i as int),
        decreases n - i,
    {
        res.push(v[i].clone());
        proof {
            assert(res@ =~= v@.take(i + 1));
        }
        i = i + 1;
    }
    proof {
        assert(v@.take(n as int) =~= v@);
    }
    res
}

fn clone_definitions(v: &Vec<MeaningDefinition>) -> (res: Vec<MeaningDefinition>)
    ensures
        res@ == v@,
{
    let mut res: Vec<MeaningDefinition> = Vec::new();
    let n = v.len();
    let mut i: usize = 0;
    while i < n
        invariant
            n == v@.len(),
            i <= n,
            res@ == v@.take(i as int),
        decreases n - i,
    {
        res.push(v[i].clone());
        proof {
            assert(res@ =~= v@.take(i + 1));
        }
        i = i + 1;
    }
    proof {
        assert(v@.take(n as int) =~= v@);
    }
    res
}

fn clone_images(v: &Vec<MeaningImage>) -> (res: Vec<MeaningImage>)
    ensures
        res@ == v@,
{
    let mut res: Vec<MeaningImage> = Vec::new();
    let n = v.len();
    let mut i: usize = 0;
    while i < n
        invariant
            n == v@.len(),
            i <= n,
            res@ == v@.take(i as int),
        decreases n - i,
    {
        res.push(v[i].clone());
        proof {
            assert(res@ =~= v@.take(i + 1));
        }
        i = i + 1;
    }
    proof {
        assert(v@.take(n as int) =~= v@);
    }
    res
}

/// The mathematical value of a [`Meaning`]: the same fields with every
/// vector read off as its sequence of elements.
#[verifier::ext_equal]
pub struct MeaningModel {
    pub alternatives: Option<Seq<MeaningAlternative>>,
    pub definition: MeaningDefinition,
    pub examples: Seq<MeaningDefinition>,
    pub id: u64,
    pub images: Seq<MeaningImage>,
    pub sound_url: String,
    pub text: String,
    pub transcription: String,
    pub translation: Translation,
}

impl View for Meaning {
    type V = MeaningModel;

    open spec fn view(&self) -> MeaningModel {
        MeaningModel {
            alternatives: match self.alternatives {
                Some(v) => Some(v@),
                None => None,
            },
            definition: self.definition,
            examples: self.examples@,
            id: self.id,
            images: self.images@,
            sound_url: self.sound_url,
            text: self.text,
            transcription: self.transcription,
            translation: self.translation,
        }
    }
}

impl DeepView for Meaning {
    type V = MeaningModel;

    open spec fn deep_view(&self) -> MeaningModel {
        self.view()
    }
}

impl Clone for Meaning {
    fn clone(&self) -> (res: Self)
        ensures
            res@ == self@,
    {
        let res = Meaning {
            alternatives: match &self.alternatives {
                Some(v) => Some(clone_alternatives(v)),
                None => None,
            },
            definition: self.definition.clone(),
            examples: clone_definitions(&self.examples),
            id: self.id,
            images: clone_images(&self.images),
            sound_url: self.sound_url.clone(),
            text: self.text.clone(),
            transcription: self.transcription.clone(),
            translation: self.translation.clone(),
        };
        proof {
            assert(res@ =~= self@);
        }
        res
    }
}

/// The comma-joined decimal rendering of `ids`, the value of the `ids`
/// query parameter of the meanings endpoint.
pub open spec fn ids_join(ids: Seq<u64>) -> Seq<char>
    decreases ids.len(),
{
    if ids.len() == 0 {
        Seq::empty()
    } else if ids.len() == 1 {
        dec_chars(ids[0] as nat)
    } else {
        ids_join(ids.drop_last()) + seq![','] + dec_chars(ids.last() as nat)
    }
}

/// Render the meaning ids of `words` as the comma-joined list the
/// meanings endpoint expects.
pub fn meaning_ids_param(words: &Vec<WordData>) -> (r: String)
    ensures
        r@ == ids_join(words@.map_values(|w: WordData| w.meaning_id)),
{
    let ghost ids = words@.map_values(|w: WordData| w.meaning_id);
    let mut r = String::new();
    let n = words.len();
    let mut i: usize = 0;
    proof {
        assert(ids.take(0) =~= Seq::<u64>::empty());
    }
    while i < n
        invariant
            n == words@.len(),
            i <= n,
            ids == words@.map_values(|w: WordData| w.meaning_id),
            r@ == ids_join(ids.take(i as int)),
        decreases n - i,
    {
        if i > 0 {
            r.append(",");
        }
        let d = u64_to_dec(words[i].meaning_id);
        r.append(d.as_str());
        proof {
            reveal_strlit(",");
            assert(","@ =~= seq![',']);
            assert(ids.take(i + 1).drop_last() =~= ids.take(i as int));
            assert(ids.take(i + 1).last() == ids[i as int]);
            assert(ids[i as int] == words@[i as int].meaning_id);
            assert(r@ =~= ids_join(ids.take(i + 1)));
        }
        i = i + 1;
    }
    proof {
        assert(ids.take(n as int) =~= ids);
    }
    r
}

/// Wrap the outcome of deserializing the meanings response body: a parse
/// failure surfaces as `DeserializationError` carrying both the parser's
/// complaint and the raw body, for diagnosis.
pub fn meanings_result(parsed: Result<Vec<Meaning>, String>, body: String) -> (r: Result<
    Vec<Meaning>,
    Error,
>)
    ensures
        match r {
            Ok(ms) => parsed matches Ok(p) && ms == p,
            Err(e) => parsed matches Err(msg) && (e matches Error::DeserializationError {
                error,
                body: b,
            } && error == msg && b == body),
        },
{
    match parsed {
        Ok(ms) => Ok(ms),
        Err(msg) => Err(Error::DeserializationError { error: msg, body }),
    }
}

/// One fetched word paired with one of the meanings that answer its
/// meaning id.
#[derive(Debug)]
pub struct WordMeaning {
    pub student_id: u32,
    pub word: WordOfSet,
    pub meaning: Meaning,
}

/// The mathematical value of a [`WordMeaning`].
#[verifier::ext_equal]
pub struct WordMeaningModel {
    pub student_id: u32,
    pub word: WordOfSet,
    pub meaning: MeaningModel,
}

impl View for WordMeaning {
    type V = WordMeaningModel;

    open spec fn view(&self) -> WordMeaningModel {
        WordMeaningModel { student_id: self.student_id, word: self.word, meaning: self.meaning@ }
    }
}

impl DeepView for WordMeaning {
    type V = WordMeaningModel;

    open spec fn deep_view(&self) -> WordMeaningModel {
        self.view()
    }
}

/// The pairings of one word with every meaning whose id answers it, in
/// the meanings' arrival order.
pub open spec fn word_meanings_for(
    student_id: u32,
    word: WordOfSet,
    meanings: Seq<MeaningModel>,
) -> Seq<WordMeaningModel> {
    meanings.filter(|m: MeaningModel| m.id == word.word.meaning_id).map_values(
        |m: MeaningModel| WordMeaningModel { student_id, word, meaning: m },
    )
}

/// The full join of words against meanings: for each word in order, its
/// pairings with every matching meaning.
pub open spec fn join_words_meanings(
    student_id: u32,
    words: Seq<WordOfSet>,
    meanings: Seq<MeaningModel>,
) -> Seq<WordMeaningModel>
    decreases words.len(),
{
    if words.len() == 0 {
        Seq::empty()
    } else {
        join_words_meanings(student_id, words.drop_last(), meanings) + word_meanings_for(
            student_id,
            words.last(),
            meanings,
        )
    }
}

/// Pair every fetched word with the meanings that answer its meaning id.
pub fn to_word_meanings(student_id: &u32, words: &Vec<WordOfSet>, meanings: &Vec<Meaning>) -> (r:
    Vec<WordMeaning>)
    ensures
        r.deep_view() == join_words_meanings(*student_id, words@, meanings.deep_view()),
{
    let ghost mmodels = meanings.deep_view();
    let mut r: Vec<WordMeaning> = Vec::new();
    let n = words.len();
    let m = meanings.len();
    let mut i: usize = 0;
    proof {
        assert(words@.take(0) =~= Seq::<WordOfSet>::empty());
        assert(mmodels.len() == meanings@.len());
    }
    while i < n
        invariant
            n == words@.len(),
            m == meanings@.len(),
            i <= n,
            mmodels == meanings.deep_view(),
            mmodels.len() == m,
            r.deep_view() == join_words_meanings(*student_id, words@.take(i as int), mmodels),
        decreases n - i,
    {
        let mut j: usize = 0;
        proof {
            assert(mmodels.take(0) =~= Seq::<MeaningModel>::empty());
            assert(word_meanings_for(*student_id, words@[i as int], mmodels.take(0))
                =~= Seq::<WordMeaningModel>::empty());
        }
        while j < m
            invariant
                n == words@.len(),
                m == meanings@.len(),
                i < n,
                j <= m,
                mmodels == meanings.deep_view(),
                mmodels.len() == m,
                r.deep_view() == join_words_meanings(*student_id, words@.take(i as int), mmodels)
                    + word_meanings_for(*student_id, words@[i as int], mmodels.take(j as int)),
            decreases m - j,
        {
            let ghost pred = |mm: MeaningModel| mm.id == words@[i as int].word.meaning_id;
            let ghost r_before = r.deep_view();
            if meanings[j].id == words[i].word.meaning_id {
                r.push(
                    WordMeaning {
                        student_id: *student_id,
                        word: words[i].clone(),
                        meaning: meanings[j].clone(),
                    },
                );
                proof {
                    assert(r@.drop_last() =~= r@.subrange(0, r@.len() - 1));
                    assert(r.deep_view() =~= r_before.push(r@.last().deep_view()));
                    assert(r@.last().deep_view().meaning == mmodels[j as int]);
                    assert(r@.last().deep_view() == WordMeaningModel {
                        student_id: *student_id,
                        word: words@[i as int],
                        meaning: mmodels[j as int],
                    });
                }
            }
            proof {
                reveal_with_fuel(Seq::filter, 2);
                assert(mmodels.take(j + 1).drop_last() =~= mmodels.take(j as int));
                assert(mmodels.take(j + 1).last() == mmodels[j as int]);
                let taken = mmodels.take(j + 1);
                let filtered = taken.filter(pred);
                if pred(mmodels[j as int]) {
                    assert(filtered == mmodels.take(j as int).filter(pred).push(
                        mmodels[j as int],
                    ));
                } else {
                    assert(filtered == mmodels.take(j as int).filter(pred));
                }
                assert(r.deep_view() =~= join_words_meanings(
                    *student_id,
                    words@.take(i as int),
                    mmodels,
                ) + word_meanings_for(*student_id, words@[i as int], mmodels.take(j + 1)));
            }
            j = j + 1;
        }
        proof {
            assert(mmodels.take(m as int) =~= mmodels);
            assert(words@.take(i + 1).drop_last() =~= words@.take(i as int));
            assert(words@.take(i + 1).last() == words@[i as int]);
        }
        i = i + 1;
    }
    proof {
        assert(words@.take(n as int) =~= words@);
    }
    r
}

/// A flattened word row for the persistence collaborator, carrying plain
/// values only; the export instant is in milliseconds since the epoch.
#[derive(Debug)]
pub struct Word {
    pub student_id: i64,
    pub wordset_id: i64,
    pub word_id: i64,
    pub title: String,
    pub subtitle: String,
    pub meaning: String,
    pub created_at: String,
    pub exported_at: Option<u128>,
}

impl WordMeaning {
    /// The flattened row for this pairing, stamped with the export
    /// instant as read from the wall clock.
    pub fn to_db_word(&self) -> (r: Word)
        ensures
            r.student_id == self.student_id as i64,
            r.wordset_id == self.word.wordset.id as i64,
            r.word_id == self.word.word.meaning_id as i64,
            r.title == self.word.wordset.title,
            r.subtitle == self.word.wordset.subtitle,
            r.meaning == self.meaning.text,
            r.created_at == self.word.word.created_at,
            r.exported_at is Some,
    {
        Word {
            student_id: self.student_id as i64,
            wordset_id: self.word.wordset.id as i64,
            word_id: self.word.word.meaning_id as i64,
            title: self.word.wordset.title.clone(),
            subtitle: self.word.wordset.subtitle.clone(),
            meaning: self.meaning.text.clone(),
            created_at: self.word.word.created_at.clone(),
            exported_at: Some(curr_millis()),
        }
    }
}

} // verus!
