use wnacg_tasks::store::{StoreError, TaskStore};
use wnacg_tasks::task::ClipboardPayload;

fn task(url: &str, title: &str) -> ClipboardPayload {
    ClipboardPayload {
        url: url.to_string(),
        title: title.to_string(),
        image: "placeholder.png".to_string(),
        download_page_href: String::new(),
    }
}

#[test]
fn opening_a_directory_as_database_fails() {
    match TaskStore::init_db(".") {
        Err(StoreError::Backend(message)) => assert!(!message.is_empty()),
        Ok(_) => panic!("a directory must not open as a database"),
    }
}

#[test]
fn file_store_reopens_with_its_rows() {
    let path = "/tmp/wnacg_tasks_file_store_test.db";
    {
        let mut store = TaskStore::init_db(path).unwrap();
        store.clear_all_tasks().unwrap();
        store.insert_task(&task("https://a", "kept")).unwrap();
    }
    let store = TaskStore::init_db(path).unwrap();
    let all = store.get_all_tasks().unwrap();
    assert_eq!(all.len(), 1);
    assert_eq!(all[0].title, "kept");
}

#[test]
fn foreign_tasks_table_is_refused() {
    let path = "/tmp/wnacg_tasks_foreign_schema_test.db";
    let conn = rusqlite::Connection::open(path).unwrap();
    conn.execute("DROP TABLE IF EXISTS tasks", []).unwrap();
    conn.execute(
        "CREATE TABLE tasks (url TEXT, title TEXT, image TEXT, download_page_href TEXT)",
        [],
    )
    .unwrap();
    drop(conn);
    assert!(TaskStore::init_db(path).is_err());
}

#[test]
fn decoy_unique_index_does_not_make_a_foreign_table_pass() {
    let path = "/tmp/wnacg_tasks_decoy_index_test.db";
    let conn = rusqlite::Connection::open(path).unwrap();
    conn.execute("DROP TABLE IF EXISTS tasks", []).unwrap();
    conn.execute(
        "CREATE TABLE tasks (id INTEGER, url TEXT, title TEXT, image TEXT, download_page_href TEXT)",
        [],
    )
    .unwrap();
    conn.execute("CREATE INDEX tasks_url_unique ON tasks (title)", []).unwrap();
    conn.execute(
        "INSERT INTO tasks (url, title) VALUES ('https://dup', 'x'), ('https://dup', 'y')",
        [],
    )
    .unwrap();
    drop(conn);
    assert!(TaskStore::init_db(path).is_err());
}

#[test]
fn fresh_store_is_empty() {
    let store = TaskStore::open_in_memory().unwrap();
    assert_eq!(store.get_all_tasks().unwrap().len(), 0);
}

#[test]
fn insert_then_list_returns_the_row() {
    let mut store = TaskStore::open_in_memory().unwrap();
    store.insert_task(&task("https://www.wnacg.com/photos-index-aid-1.html", "one")).unwrap();
    let all = store.get_all_tasks().unwrap();
    assert_eq!(all.len(), 1);
    assert_eq!(all[0].url, "https://www.wnacg.com/photos-index-aid-1.html");
    assert_eq!(all[0].title, "one");
}

#[test]
fn duplicate_insert_keeps_first_fields() {
    let mut store = TaskStore::open_in_memory().unwrap();
    let url = "https://www.wnacg.com/photos-index-aid-1.html";
    store.insert_task(&task(url, "first title")).unwrap();
    store.insert_task(&task(url, "second title")).unwrap();
    let all = store.get_all_tasks().unwrap();
    assert_eq!(all.len(), 1);
    assert_eq!(all[0].title, "first title");
}

#[test]
fn list_all_keeps_insertion_order() {
    let mut store = TaskStore::open_in_memory().unwrap();
    for id in [3, 1, 2] {
        let url = format!("https://www.wnacg.com/photos-index-aid-{}.html", id);
        store.insert_task(&task(&url, &format!("t{}", id))).unwrap();
    }
    let all = store.get_all_tasks().unwrap();
    let titles: Vec<&str> = all.iter().map(|p| p.title.as_str()).collect();
    assert_eq!(titles, vec!["t3", "t1", "t2"]);
}

#[test]
fn reinserting_duplicate_does_not_move_the_row() {
    let mut store = TaskStore::open_in_memory().unwrap();
    store.insert_task(&task("https://a", "a")).unwrap();
    store.insert_task(&task("https://b", "b")).unwrap();
    store.insert_task(&task("https://a", "a again")).unwrap();
    let all = store.get_all_tasks().unwrap();
    let urls: Vec<&str> = all.iter().map(|p| p.url.as_str()).collect();
    assert_eq!(urls, vec!["https://a", "https://b"]);
}

#[test]
fn get_task_by_url_finds_the_row() {
    let mut store = TaskStore::open_in_memory().unwrap();
    store.insert_task(&task("https://a", "a")).unwrap();
    store.insert_task(&task("https://b", "b")).unwrap();
    let found = store.get_task_by_url("https://b").unwrap().unwrap();
    assert_eq!(found.title, "b");
}

#[test]
fn get_task_by_url_misses_cleanly() {
    let store = TaskStore::open_in_memory().unwrap();
    assert!(store.get_task_by_url("https://nope").unwrap().is_none());
}

#[test]
fn delete_removes_only_that_url() {
    let mut store = TaskStore::open_in_memory().unwrap();
    store.insert_task(&task("https://a", "a")).unwrap();
    store.insert_task(&task("https://b", "b")).unwrap();
    store.delete_task_by_url("https://a").unwrap();
    let all = store.get_all_tasks().unwrap();
    assert_eq!(all.len(), 1);
    assert_eq!(all[0].url, "https://b");
}

#[test]
fn delete_of_missing_url_succeeds() {
    let mut store = TaskStore::open_in_memory().unwrap();
    store.insert_task(&task("https://a", "a")).unwrap();
    store.delete_task_by_url("https://missing").unwrap();
    assert_eq!(store.get_all_tasks().unwrap().len(), 1);
}

#[test]
fn reinserted_url_goes_to_the_end() {
    let mut store = TaskStore::open_in_memory().unwrap();
    store.insert_task(&task("https://a", "a")).unwrap();
    store.insert_task(&task("https://b", "b")).unwrap();
    store.delete_task_by_url("https://a").unwrap();
    store.insert_task(&task("https://a", "a back")).unwrap();
    let all = store.get_all_tasks().unwrap();
    let urls: Vec<&str> = all.iter().map(|p| p.url.as_str()).collect();
    assert_eq!(urls, vec!["https://b", "https://a"]);
}

#[test]
fn clear_empties_the_store() {
    let mut store = TaskStore::open_in_memory().unwrap();
    store.insert_task(&task("https://a", "a")).unwrap();
    store.insert_task(&task("https://b", "b")).unwrap();
    store.clear_all_tasks().unwrap();
    assert_eq!(store.get_all_tasks().unwrap().len(), 0);
}

#[test]
fn clear_on_empty_store_succeeds() {
    let mut store = TaskStore::open_in_memory().unwrap();
    store.clear_all_tasks().unwrap();
    assert_eq!(store.get_all_tasks().unwrap().len(), 0);
}

#[test]
fn deleted_url_can_be_inserted_again() {
    let mut store = TaskStore::open_in_memory().unwrap();
    store.insert_task(&task("https://a", "old")).unwrap();
    store.delete_task_by_url("https://a").unwrap();
    store.insert_task(&task("https://a", "new")).unwrap();
    let all = store.get_all_tasks().unwrap();
    assert_eq!(all.len(), 1);
    assert_eq!(all[0].title, "new");
}
