use dev_cli::search::config::Config;
use dev_cli::search::models::{
    LookupError, ResultStore, ResultStoreItem, SearchResult, SearchResults,
};
use dev_cli::search::query::{checked_page_number, execute, get_results, page_number};

fn result(title: &str, link: &str, snippet: &str) -> SearchResult {
    SearchResult {
        title: title.to_string(),
        link: link.to_string(),
        snippet: snippet.to_string(),
    }
}

fn three() -> SearchResults {
    SearchResults {
        items: vec![
            result("A", "https://a.example", "first"),
            result("B", "https://b.example", "second"),
            result("C", "https://c.example", "third"),
        ],
    }
}

#[test]
fn stored_links_are_numbered_from_one() {
    let store = ResultStore::from_search_results(three());
    assert_eq!(store.items.len(), 3);
    assert_eq!(store.items[0].index, 1);
    assert_eq!(store.items[0].link, "https://a.example");
    assert_eq!(store.items[1].index, 2);
    assert_eq!(store.items[1].link, "https://b.example");
    assert_eq!(store.items[2].index, 3);
    assert_eq!(store.items[2].link, "https://c.example");
}

#[test]
fn stored_links_resolve_in_order() {
    let store = ResultStore::from_search_results(three());
    assert_eq!(ResultStore::get_link(Some(&store), 1), Ok("https://a.example".to_string()));
    assert_eq!(ResultStore::get_link(Some(&store), 2), Ok("https://b.example".to_string()));
    assert_eq!(ResultStore::get_link(Some(&store), 3), Ok("https://c.example".to_string()));
    assert_eq!(ResultStore::get_link(Some(&store), 4), Err(LookupError::IndexNotFound));
    assert_eq!(ResultStore::get_link(Some(&store), 0), Err(LookupError::IndexNotFound));
    assert_eq!(
        ResultStore::get_link(Some(&store), usize::MAX),
        Err(LookupError::IndexNotFound)
    );
}

#[test]
fn no_store_is_not_a_missing_index() {
    assert_eq!(ResultStore::get_link(None, 1), Err(LookupError::StoreNotFound));
    let empty = ResultStore::from_search_results(SearchResults { items: Vec::new() });
    assert_eq!(ResultStore::get_link(Some(&empty), 1), Err(LookupError::IndexNotFound));
    assert_ne!(LookupError::StoreNotFound, LookupError::IndexNotFound);
}

#[test]
fn storing_twice_resolves_alike() {
    let first = ResultStore::from_search_results(three());
    let second = ResultStore::from_search_results(three());
    for k in 0..6 {
        assert_eq!(
            ResultStore::get_link(Some(&first), k),
            ResultStore::get_link(Some(&second), k)
        );
    }
}

#[test]
fn the_first_item_under_a_number_wins() {
    let store = ResultStore {
        items: vec![
            ResultStoreItem::new(7, "x".to_string()),
            ResultStoreItem::new(2, "y".to_string()),
            ResultStoreItem::new(7, "z".to_string()),
        ],
    };
    assert_eq!(ResultStore::get_link(Some(&store), 7), Ok("x".to_string()));
    assert_eq!(ResultStore::get_link(Some(&store), 2), Ok("y".to_string()));
    assert_eq!(ResultStore::get_link(Some(&store), 1), Err(LookupError::IndexNotFound));
}

#[test]
fn item_keeps_what_it_is_given() {
    let item = ResultStoreItem::new(5, "https://e.example".to_string());
    assert_eq!(item.index, 5);
    assert_eq!(item.link, "https://e.example");
}

#[test]
fn page_offsets() {
    assert_eq!(page_number(1), 1);
    assert_eq!(page_number(2), 11);
    assert_eq!(page_number(3), 21);
    assert_eq!(page_number(100), 991);
    assert_eq!(checked_page_number(1), Some(1));
    assert_eq!(checked_page_number(2), Some(11));
    assert_eq!(checked_page_number(3), Some(21));
}

#[test]
fn page_zero_and_pages_out_of_range_have_no_offset() {
    assert_eq!(checked_page_number(0), None);
    assert_eq!(checked_page_number(usize::MAX), None);
    let last = (usize::MAX - 1) / 10 + 1;
    assert_eq!(checked_page_number(last), Some((last - 1) * 10 + 1));
    assert_eq!(checked_page_number(last + 1), None);
}

#[test]
fn query_address_is_exact() {
    assert_eq!(
        get_results("rust verus", "KEY", "CX", 1),
        "https://www.googleapis.com/customsearch/v1?key=KEY&cx=CX&q=rust verus&start=1"
    );
    assert_eq!(
        get_results("q", "", "", 3),
        "https://www.googleapis.com/customsearch/v1?key=&cx=&q=q&start=21"
    );
    assert_eq!(
        get_results("q", "k", "c", 1001),
        "https://www.googleapis.com/customsearch/v1?key=k&cx=c&q=q&start=10001"
    );
}

#[test]
fn a_short_result_is_laid_out() {
    let r = result("Title", "https://t.example", "A short description.");
    assert_eq!(
        r.print(3),
        "\n\x1b[1m3 | Title\x1b[0m\n    -----\n    A short description.\n\n    \x1b[3mhttps://t.example\x1b[0m\n        "
    );
}

#[test]
fn a_long_description_is_wrapped() {
    let a = "a".repeat(69);
    let b = "b".repeat(69);
    let r = result("T", "l", &format!("{} {}", a, b));
    assert_eq!(
        r.print(12),
        format!(
            "\n\x1b[1m12 | T\x1b[0m\n    -\n    {}\n    {}\n\n    \x1b[3ml\x1b[0m\n        ",
            a, b
        )
    );
}

#[test]
fn the_rule_counts_bytes() {
    let r = result("\u{e9}t\u{e9}", "l", "");
    assert_eq!(
        r.print(1),
        "\n\x1b[1m1 | \u{e9}t\u{e9}\x1b[0m\n    -----\n    \n\n    \x1b[3ml\x1b[0m\n        "
    );
}

#[test]
fn layout_takes_the_lines_as_given() {
    let r = result("Ti", "L", "ignored");
    let lines = vec!["one".to_string(), "two".to_string(), "three".to_string()];
    assert_eq!(
        r.layout(0, &lines),
        "\n\x1b[1m0 | Ti\x1b[0m\n    --\n    one\n    two\n    three\n\n    \x1b[3mL\x1b[0m\n        "
    );
    let none: Vec<String> = Vec::new();
    assert_eq!(
        r.layout(10, &none),
        "\n\x1b[1m10 | Ti\x1b[0m\n    --\n    \n\n    \x1b[3mL\x1b[0m\n        "
    );
}

#[test]
fn a_page_is_numbered_from_one() {
    let blocks = execute(&three());
    assert_eq!(blocks.len(), 3);
    assert_eq!(
        blocks[0],
        "\n\x1b[1m1 | A\x1b[0m\n    -\n    first\n\n    \x1b[3mhttps://a.example\x1b[0m\n        "
    );
    assert_eq!(
        blocks[2],
        "\n\x1b[1m3 | C\x1b[0m\n    -\n    third\n\n    \x1b[3mhttps://c.example\x1b[0m\n        "
    );
}

#[test]
fn files_are_kept_under_the_home_directory() {
    assert_eq!(Config::path_in("/home/alice"), "/home/alice/.dev-config/config.yaml");
    assert_eq!(ResultStore::path_in("/home/alice"), "/home/alice/.dev-config/results.yaml");
    assert_eq!(Config::path_in(""), "/.dev-config/config.yaml");
    if let Some(path) = Config::dir() {
        assert!(path.ends_with("/.dev-config/config.yaml"));
    }
    if let Some(path) = ResultStore::dir() {
        assert!(path.ends_with("/.dev-config/results.yaml"));
    }
}

#[test]
fn without_a_home_directory_there_is_no_place() {
    assert_eq!(Config::path_for(&None), None);
    assert_eq!(ResultStore::path_for(&None), None);
    assert_eq!(
        Config::path_for(&Some("/home/bob".to_string())),
        Some("/home/bob/.dev-config/config.yaml".to_string())
    );
    assert_eq!(
        ResultStore::path_for(&Some("/home/bob".to_string())),
        Some("/home/bob/.dev-config/results.yaml".to_string())
    );
    assert_eq!(Config::path_for(&Some(String::new())), Some("/.dev-config/config.yaml".to_string()));
}

#[test]
fn a_missing_configuration_gets_empty_credentials() {
    assert_eq!(Config::create_file(true), None);
    assert_eq!(
        Config::create_file(false),
        Some("api_key: \"\"\nsearch_engine_id: \"\"".to_string())
    );
}
