//! Flashcard notes built from dictionary meanings, and the derivation of
//! stable attachment filenames from media URLs.
//!
//! A URL with query parameters is a dynamically generated audio clip; the
//! only human-meaningful, collision-resistant identifier in it is the
//! text after its last `=`, so that word becomes the filename, with an
//! `.mp3` extension. Any other URL already ends in a real filename, which
//! is taken verbatim from after the last `/`.

use vstd::prelude::*;
use crate::meanings::Meaning;
use crate::strutil::{after_last, str_contains_char, suffix_after_last};

verus! {

/// A note for the downstream flashcard system.
#[derive(Debug)]
pub struct Note {
    pub deck_name: String,
    pub model_name: String,
    pub fields: Fields,
    pub options: Options,
    pub tags: Vec<String>,
    pub audio: Vec<Attachment>,
    pub picture: Vec<Attachment>,
}

/// The note's visible fields.
#[derive(Debug)]
pub struct Fields {
    pub text: String,
}

/// Duplicate handling for an added note.
#[derive(Debug)]
pub struct Options {
    pub allow_duplicate: bool,
    pub duplicate_scope: String,
    pub duplicate_scope_options: Option<DuplicateScopeOptions>,
}

/// Where duplicates are looked for.
#[derive(Debug)]
pub struct DuplicateScopeOptions {
    pub deck_name: String,
    pub check_children: bool,
    pub check_all_models: bool,
}

/// A media attachment of a note.
#[derive(Debug)]
pub struct Attachment {
    pub url: String,
    pub filename: String,
    pub fields: Vec<String>,
}

/// The stable filename derived from a media URL: for a URL carrying query
/// parameters, the text after its last `=` with `.mp3` appended;
/// otherwise the path basename, verbatim.
pub open spec fn filename_of_url(url: Seq<char>) -> Seq<char> {
    if url.contains('?') {
        after_last(url, '=') + ".mp3"@
    } else {
        after_last(url, '/')
    }
}

/// Derive the attachment filename for a media URL.
pub fn url_to_filename(url: &str) -> (r: String)
    ensures
        r@ == filename_of_url(url@),
{
    if str_contains_char(url, '?') {
        let base = suffix_after_last(url, '=');
        String::from_str(base).concat(".mp3")
    } else {
        String::from_str(suffix_after_last(url, '/'))
    }
}

/// Attachment building for a media URL.
pub trait ToAttachment {
    /// The attachment for this URL, named by [`filename_of_url`] and
    /// bound to the given note fields.
    fn to_attachment(&self, fields: Vec<String>) -> Attachment;
}

impl ToAttachment for String {
    fn to_attachment(&self, fields: Vec<String>) -> (r: Attachment)
        ensures
            r.url == self,
            r.filename@ == filename_of_url(self@),
            r.fields == fields,
    {
        let filename = url_to_filename(self.as_str());
        Attachment { url: self.clone(), filename, fields }
    }
}

/// The cloze text shown on a card.
pub trait ToMaskedText {
    /// The word followed by its translation, space-separated.
    fn to_masked_text(&self) -> String;
}

impl ToMaskedText for Meaning {
    fn to_masked_text(&self) -> (r: String)
        ensures
            r@ == self.text@ + " "@ + self.translation.text@,
    {
        self.text.clone().concat(" ").concat(self.translation.text.as_str())
    }
}

/// Note assembly for the downstream flashcard system.
pub trait AnkiPersistence {
    /// The cloze note carrying this meaning: its masked text, its
    /// pronunciation audio attachment, and the fixed deck options.
    fn to_notes(&self, deck_name: &String) -> Note;
}

impl AnkiPersistence for Meaning {
    fn to_notes(&self, deck_name: &String) -> (r: Note)
        ensures
            r.deck_name == deck_name,
            r.model_name@ == "Cloze"@,
            r.fields.text@ == self.text@ + " "@ + self.translation.text@,
            r.options.allow_duplicate == false,
            r.options.duplicate_scope@ == "deck"@,
            r.options.duplicate_scope_options matches Some(o) && (o.deck_name@ == "Default"@
                && !o.check_children && !o.check_all_models),
            r.tags@.len() == 1 && r.tags@[0]@ == "skyeng"@,
            r.audio@.len() == 1 && r.audio@[0].url == self.sound_url,
            r.audio@[0].filename@ == filename_of_url(self.sound_url@),
            r.audio@[0].fields@.len() == 1 && r.audio@[0].fields@[0]@ == "Extra"@,
            r.picture@.len() == 1 && r.picture@[0].url@ == ""@,
            r.picture@[0].filename@ == ""@,
            r.picture@[0].fields@.len() == 1 && r.picture@[0].fields@[0]@ == "Extra"@,
    {
        let masked_text = self.to_masked_text();
        let audio = self.sound_url.to_attachment(vec![String::from_str("Extra")]);
        Note {
            deck_name: deck_name.clone(),
            model_name: String::from_str("Cloze"),
            fields: Fields { text: masked_text },
            options: Options {
                allow_duplicate: false,
                duplicate_scope: String::from_str("deck"),
                duplicate_scope_options: Some(
                    DuplicateScopeOptions {
                        deck_name: String::from_str("Default"),
                        check_children: false,
                        check_all_models: false,
                    },
                ),
            },
            tags: vec![String::from_str("skyeng")],
            audio: vec![audio],
            picture: vec![
                Attachment {
                    url: String::from_str(""),
                    filename: String::from_str(""),
                    fields: vec![String::from_str("Extra")],
                },
            ],
        }
    }
}

} // verus!
