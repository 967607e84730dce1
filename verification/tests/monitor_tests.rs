use wnacg_tasks::greet;
use wnacg_tasks::monitor::{handle_scrape_outcome, ClipboardState, MONITOR_INTERVAL_MS};
use wnacg_tasks::scrape::{payload_from_response, ScrapeError};
use wnacg_tasks::store::TaskStore;

const PAGE: &str = r#"<div id="bodywrap"><h2>Found Title</h2></div>"#;

#[test]
fn end_to_end_change_is_notified_exactly_once() {
    let mut state = ClipboardState::new();
    let mut store = TaskStore::open_in_memory().unwrap();
    let mut notifications = 0;

    assert!(state.observe("hello".to_string()).is_none());

    let url = state
        .observe("https://www.wnacg.com/photos-index-aid-12345.html".to_string())
        .expect("a valid new url is accepted");
    assert_eq!(url, "https://www.wnacg.com/photos-index-aid-12345.html");

    let outcome = payload_from_response(url.clone(), 200, PAGE);
    if let Some(task) = handle_scrape_outcome(&mut store, outcome) {
        notifications += 1;
        assert_eq!(task.url, url);
        assert_eq!(task.title, "Found Title");
    }

    // The same content read again is no change: nothing fires.
    assert!(state
        .observe("https://www.wnacg.com/photos-index-aid-12345.html".to_string())
        .is_none());

    assert_eq!(notifications, 1);
    let all = store.get_all_tasks().unwrap();
    assert_eq!(all.len(), 1);
    assert_eq!(all[0].url, url);
    assert!(!all[0].title.is_empty());
}

#[test]
fn scrape_404_persists_nothing_and_polling_goes_on() {
    let mut state = ClipboardState::new();
    let mut store = TaskStore::open_in_memory().unwrap();

    let url = state
        .observe("https://www.wnacg.com/photos-index-aid-1.html".to_string())
        .unwrap();
    let outcome = payload_from_response(url, 404, "");
    assert_eq!(outcome, Err(ScrapeError::HttpStatus(404)));
    assert!(handle_scrape_outcome(&mut store, outcome).is_none());
    assert_eq!(store.get_all_tasks().unwrap().len(), 0);

    // The monitor keeps polling and accepting later URLs.
    let next = state.observe("https://www.wnacg.com/photos-index-aid-2.html".to_string());
    assert!(next.is_some());
}

#[test]
fn invalid_change_is_silently_swallowed() {
    let mut state = ClipboardState::new();
    assert!(state.observe("not a url".to_string()).is_none());
    // The invalid content still counts as the last seen content.
    assert!(state.observe("not a url".to_string()).is_none());
    assert!(state
        .observe("https://www.wnacg.com/photos-index-aid-3.html".to_string())
        .is_some());
}

#[test]
fn duplicate_url_from_a_second_change_is_not_duplicated_in_store() {
    let mut state = ClipboardState::new();
    let mut store = TaskStore::open_in_memory().unwrap();
    let target = "https://www.wnacg.com/photos-index-aid-9.html";

    let first = state.observe(target.to_string()).unwrap();
    handle_scrape_outcome(&mut store, payload_from_response(first, 200, PAGE));

    // Something else, then the same URL again: a change, so it fires...
    assert!(state.observe("interlude".to_string()).is_none());
    let again = state.observe(target.to_string()).unwrap();
    // ...but the store keeps a single row, with the first fields.
    handle_scrape_outcome(&mut store, payload_from_response(again, 200, ""));
    let all = store.get_all_tasks().unwrap();
    assert_eq!(all.len(), 1);
    assert_eq!(all[0].title, "Found Title");
}

#[test]
fn poll_interval_is_half_a_second() {
    assert_eq!(MONITOR_INTERVAL_MS, 500);
}

#[test]
fn greet_wraps_the_name() {
    assert_eq!(greet("World"), "Hello, World! You've been greeted from Rust!");
}
