use skyeng_sync::errors::Error;
use skyeng_sync::meanings::{
    meaning_ids_param, meanings_result, to_word_meanings, Meaning, MeaningDefinition, MeaningImage,
    Translation,
};
use skyeng_sync::notes::{AnkiPersistence, ToMaskedText};
use skyeng_sync::words::{WordData, WordOfSet, WordSetData};

fn meaning(id: u64, text: &str, translation: &str) -> Meaning {
    Meaning {
        alternatives: None,
        definition: MeaningDefinition {
            text: format!("definition of {}", text),
            sound_url: "https://host?gender=female&text=definition".to_string(),
        },
        examples: vec![MeaningDefinition {
            text: format!("example with {}", text),
            sound_url: "https://host?gender=female&text=example".to_string(),
        }],
        id,
        images: vec![MeaningImage { url: "https://host/img/pic.png".to_string() }],
        sound_url: format!("https://host?gender=female&text={}", text),
        text: text.to_string(),
        transcription: "x".to_string(),
        translation: Translation { text: translation.to_string() },
    }
}

fn word_of_set(meaning_id: u64, set_id: u32) -> WordOfSet {
    WordOfSet {
        wordset: WordSetData {
            id: set_id,
            title: "Topic".to_string(),
            subtitle: "Subtopic".to_string(),
        },
        word: WordData { meaning_id, created_at: "2022-02-10T10:40:57+00:00".to_string() },
    }
}

#[test]
fn ids_are_joined_with_commas() {
    let words = vec![
        WordData { meaning_id: 12, created_at: String::new() },
        WordData { meaning_id: 5, created_at: String::new() },
        WordData { meaning_id: 900, created_at: String::new() },
    ];
    assert_eq!(meaning_ids_param(&words), "12,5,900");
}

#[test]
fn single_id_has_no_comma() {
    let words = vec![WordData { meaning_id: 175493, created_at: String::new() }];
    assert_eq!(meaning_ids_param(&words), "175493");
}

#[test]
fn no_ids_give_an_empty_param() {
    assert_eq!(meaning_ids_param(&Vec::new()), "");
}

#[test]
fn id_zero_renders_as_zero() {
    let words = vec![
        WordData { meaning_id: 0, created_at: String::new() },
        WordData { meaning_id: 10, created_at: String::new() },
    ];
    assert_eq!(meaning_ids_param(&words), "0,10");
}

#[test]
fn parse_failure_carries_error_and_body() {
    let r = meanings_result(Err("unexpected token".to_string()), "{broken".to_string());
    match r.unwrap_err() {
        Error::DeserializationError { error, body } => {
            assert_eq!(error, "unexpected token");
            assert_eq!(body, "{broken");
        }
        other => panic!("unexpected error: {:?}", other),
    }
}

#[test]
fn parsed_meanings_pass_through() {
    let r = meanings_result(Ok(vec![meaning(1, "deter", "x")]), "[]".to_string());
    let ms = r.expect("ok expected");
    assert_eq!(ms.len(), 1);
    assert_eq!(ms[0].text, "deter");
}

#[test]
fn words_join_their_meanings_by_id() {
    let words = vec![word_of_set(10, 1), word_of_set(20, 2), word_of_set(99, 3)];
    let meanings = vec![meaning(20, "b", "bb"), meaning(10, "a", "aa"), meaning(30, "c", "cc")];
    let joined = to_word_meanings(&77, &words, &meanings);
    assert_eq!(joined.len(), 2);
    assert_eq!(joined[0].student_id, 77);
    assert_eq!(joined[0].word.word.meaning_id, 10);
    assert_eq!(joined[0].meaning.text, "a");
    assert_eq!(joined[1].word.word.meaning_id, 20);
    assert_eq!(joined[1].meaning.text, "b");
}

#[test]
fn db_word_carries_the_flattened_fields() {
    let joined = to_word_meanings(&6_605_911, &vec![word_of_set(175_493, 42)], &vec![meaning(
        175_493,
        "deter",
        "удерживать",
    )]);
    let row = joined[0].to_db_word();
    assert_eq!(row.student_id, 6_605_911);
    assert_eq!(row.wordset_id, 42);
    assert_eq!(row.word_id, 175_493);
    assert_eq!(row.title, "Topic");
    assert_eq!(row.subtitle, "Subtopic");
    assert_eq!(row.meaning, "deter");
    assert_eq!(row.created_at, "2022-02-10T10:40:57+00:00");
    assert!(row.exported_at.is_some());
}

#[test]
fn masked_text_pairs_word_and_translation() {
    let m = meaning(1, "deter", "удерживать");
    assert_eq!(m.to_masked_text(), "deter удерживать");
}

#[test]
fn note_is_assembled_from_a_meaning() {
    let m = meaning(210_809, "deter", "удерживать");
    let note = m.to_notes(&"English".to_string());
    assert_eq!(note.deck_name, "English");
    assert_eq!(note.model_name, "Cloze");
    assert_eq!(note.fields.text, "deter удерживать");
    assert!(!note.options.allow_duplicate);
    assert_eq!(note.options.duplicate_scope, "deck");
    let scope = note.options.duplicate_scope_options.as_ref().expect("scope options expected");
    assert_eq!(scope.deck_name, "Default");
    assert!(!scope.check_children);
    assert!(!scope.check_all_models);
    assert_eq!(note.tags, vec!["skyeng".to_string()]);
    assert_eq!(note.audio.len(), 1);
    assert_eq!(note.audio[0].url, "https://host?gender=female&text=deter");
    assert_eq!(note.audio[0].filename, "deter.mp3");
    assert_eq!(note.audio[0].fields, vec!["Extra".to_string()]);
    assert_eq!(note.picture.len(), 1);
    assert_eq!(note.picture[0].url, "");
    assert_eq!(note.picture[0].filename, "");
    assert_eq!(note.picture[0].fields, vec!["Extra".to_string()]);
}
