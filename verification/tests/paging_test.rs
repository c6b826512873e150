use skyeng_sync::paging::{Meta, Paginator};
use skyeng_sync::words::{WordCollector, WordData, WordSetData};

fn meta(current_page: u32, last_page: u32) -> Meta {
    Meta { total: 0, current_page, last_page, page_size: 100 }
}

#[test]
fn paginator_walks_two_pages() {
    let mut pages: Paginator<u32> = Paginator::new();
    assert_eq!(pages.next_request(), Some(1));
    pages.record_page(vec![10, 11], meta(1, 2));
    assert!(!pages.is_done());
    assert_eq!(pages.next_request(), Some(2));
    pages.record_page(vec![12], meta(2, 2));
    assert!(pages.is_done());
    assert_eq!(pages.next_request(), None);
    assert_eq!(pages.pages_fetched(), 2);
    assert_eq!(pages.into_items(), vec![10, 11, 12]);
}

#[test]
fn paginator_single_page_fetches_once() {
    let mut pages: Paginator<u32> = Paginator::new();
    assert_eq!(pages.next_request(), Some(1));
    pages.record_page(vec![7], meta(1, 1));
    assert!(pages.is_done());
    assert_eq!(pages.pages_fetched(), 1);
    assert_eq!(pages.into_items(), vec![7]);
}

#[test]
fn paginator_empty_single_page_is_valid() {
    let mut pages: Paginator<u32> = Paginator::new();
    pages.record_page(Vec::new(), meta(1, 1));
    assert!(pages.is_done());
    assert_eq!(pages.into_items(), Vec::<u32>::new());
}

#[test]
fn two_page_listing_flattens_and_tags() {
    // a two-page word-set listing: page 1 of 2, then page 2 of 2
    let mut sets: Paginator<WordSetData> = Paginator::new();
    assert_eq!(sets.next_request(), Some(1));
    sets.record_page(
        vec![WordSetData { id: 1, title: "A".to_string(), subtitle: "a".to_string() }],
        meta(1, 2),
    );
    assert_eq!(sets.next_request(), Some(2));
    sets.record_page(
        vec![WordSetData { id: 2, title: "B".to_string(), subtitle: "b".to_string() }],
        meta(2, 2),
    );
    assert!(sets.is_done());
    assert_eq!(sets.pages_fetched(), 2);
    let word_sets = sets.into_items();
    assert_eq!(word_sets.len(), 2);

    // each set's words, tagged with the owning set's descriptor and
    // concatenated in set-processing order
    let mut collected = WordCollector::new();
    collected.add_words(
        &word_sets[0],
        vec![
            WordData { meaning_id: 100, created_at: "2022-01-01T00:00:00+00:00".to_string() },
            WordData { meaning_id: 101, created_at: "2022-01-02T00:00:00+00:00".to_string() },
        ],
    );
    collected.add_words(
        &word_sets[1],
        vec![WordData { meaning_id: 200, created_at: "2022-01-03T00:00:00+00:00".to_string() }],
    );
    let words = collected.into_words();
    assert_eq!(words.len(), 3);
    assert_eq!(words[0].word.meaning_id, 100);
    assert_eq!(words[0].wordset.id, 1);
    assert_eq!(words[0].wordset.title, "A");
    assert_eq!(words[1].word.meaning_id, 101);
    assert_eq!(words[1].wordset.id, 1);
    assert_eq!(words[2].word.meaning_id, 200);
    assert_eq!(words[2].wordset.id, 2);
    assert_eq!(words[2].wordset.subtitle, "b");
}
