use std::path::PathBuf;

use dtdrafts::{
    article_matches, cache_file_in, check_status, config_file_in, estimated_pages, page_url, command_from_args, config_dir_under, contains_chars, edit_url,
    get_cache_file, get_config_file, get_draft_articles, needs_fetch, search_articles, Article,
    ArticleUser, Command, FetchError, PageFetch, PathError, Selection, PER_PAGE,
};

fn article(id: u64, title: &str, published: bool, body: Option<&str>, tags: Option<Vec<&str>>) -> Article {
    Article {
        id,
        title: title.to_string(),
        description: None,
        body_markdown: body.map(|b| b.to_string()),
        url: format!("https://dev.to/user/{}", id),
        canonical_url: None,
        url_with_preview: None,
        published,
        created_at: None,
        updated_at: None,
        tags: tags.map(|t| t.into_iter().map(|s| s.to_string()).collect()),
        slug: format!("slug-{}", id),
        user: ArticleUser { username: "user".to_string() },
    }
}

fn three_articles() -> Vec<Article> {
    vec![
        article(1, "Rust Tips", false, Some("Rust is great for CLI tools."), Some(vec!["rust", "cli"])),
        article(2, "Kotlin Guide", true, Some("Kotlin is a modern language."), Some(vec!["kotlin", "android"])),
        article(3, "CLI Tricks", false, Some("Use Rust or Python for CLI."), Some(vec!["cli", "tools"])),
    ]
}

fn ids(found: &[&Article]) -> Vec<u64> {
    found.iter().map(|a| a.id).collect()
}

fn chars(s: &str) -> Vec<char> {
    s.chars().collect()
}

#[test]
fn search_ignores_case_of_query() {
    let articles = three_articles();
    assert_eq!(ids(&search_articles(&articles, "RUST")), ids(&search_articles(&articles, "rust")));
    assert_eq!(ids(&search_articles(&articles, "RUST")), vec![1, 3]);
}

#[test]
fn search_ignores_case_of_text() {
    let articles = vec![article(7, "ASYNC in Depth", false, None, None)];
    assert_eq!(ids(&search_articles(&articles, "async")), vec![7]);
}

#[test]
fn search_never_returns_published() {
    let articles = three_articles();
    for q in ["kotlin", "android", "guide", "", "modern"] {
        assert!(search_articles(&articles, q).iter().all(|a| !a.published));
    }
    assert!(search_articles(&articles, "kotlin").is_empty());
}

#[test]
fn search_matches_each_field_and_missing_fields() {
    let articles = vec![
        article(1, "Title Only", false, None, None),
        article(2, "Plain", false, Some("a body with needle"), None),
        article(3, "Plain", false, None, Some(vec!["other", "NeedleTag"])),
        article(4, "Plain", false, None, Some(vec![])),
    ];
    assert_eq!(ids(&search_articles(&articles, "title")), vec![1]);
    assert_eq!(ids(&search_articles(&articles, "needle")), vec![2, 3]);
    assert_eq!(ids(&search_articles(&articles, "nothing")), Vec::<u64>::new());
}

#[test]
fn search_example_from_three_articles() {
    let articles = three_articles();
    assert_eq!(ids(&search_articles(&articles, "rust")), vec![1, 3]);
    assert_eq!(ids(&search_articles(&articles, "modern language")), Vec::<u64>::new());
    assert_eq!(ids(&search_articles(&articles, "cli")), vec![1, 3]);
    assert_eq!(ids(&get_draft_articles(&articles)), vec![1, 3]);
}

#[test]
fn empty_query_selects_every_draft() {
    let articles = three_articles();
    assert_eq!(ids(&search_articles(&articles, "")), vec![1, 3]);
}

#[test]
fn drafts_keep_order_and_partition() {
    let articles = vec![
        article(5, "e", false, None, None),
        article(4, "d", true, None, None),
        article(3, "c", false, None, None),
        article(2, "b", true, None, None),
        article(1, "a", false, None, None),
    ];
    let drafts = get_draft_articles(&articles);
    assert_eq!(ids(&drafts), vec![5, 3, 1]);
    let published = articles.iter().filter(|a| a.published).count();
    assert_eq!(drafts.len() + published, articles.len());
}

#[test]
fn drafts_of_empty_list() {
    let articles: Vec<Article> = Vec::new();
    assert!(get_draft_articles(&articles).is_empty());
    assert!(search_articles(&articles, "x").is_empty());
}

#[test]
fn article_matches_with_lowercase_query() {
    let a = article(1, "Rust Tips", false, None, Some(vec!["CLI"]));
    assert!(article_matches(&a, &chars("rust")));
    assert!(article_matches(&a, &chars("cli")));
    assert!(!article_matches(&a, &chars("RUST")));
    let p = article(2, "Rust Tips", true, None, None);
    assert!(!article_matches(&p, &chars("rust")));
}

#[test]
fn contains_chars_cases() {
    assert!(contains_chars(&chars("hello world"), &chars("o w")));
    assert!(contains_chars(&chars("hello"), &chars("")));
    assert!(contains_chars(&chars(""), &chars("")));
    assert!(contains_chars(&chars("abc"), &chars("abc")));
    assert!(contains_chars(&chars("abc"), &chars("c")));
    assert!(!contains_chars(&chars("abc"), &chars("abcd")));
    assert!(!contains_chars(&chars("abc"), &chars("ac")));
    assert!(!contains_chars(&chars(""), &chars("a")));
}

#[test]
fn edit_url_joins_user_and_slug() {
    let a = article(9, "x", false, None, None);
    assert_eq!(edit_url(&a), "https://dev.to/user/slug-9/edit");
}

#[test]
fn status_check() {
    assert_eq!(check_status(200), Ok(()));
    assert_eq!(check_status(299), Ok(()));
    assert_eq!(check_status(199), Err(FetchError::Status(199)));
    assert_eq!(check_status(401), Err(FetchError::Status(401)));
    assert_eq!(check_status(500), Err(FetchError::Status(500)));
}

#[test]
fn fetch_stops_on_empty_first_page() {
    let mut fetch = PageFetch::new();
    assert_eq!(fetch.next_page(), Some(1));
    assert!(fetch.take_page(Vec::new()));
    assert_eq!(fetch.next_page(), None);
    assert!(fetch.into_articles().is_empty());
}

#[test]
fn fetch_stops_after_empty_second_page() {
    let mut fetch = PageFetch::new();
    let mut requests = 0;
    while let Some(page) = fetch.next_page() {
        requests += 1;
        let arts = if page == 1 {
            vec![article(1, "a", false, None, None), article(2, "b", false, None, None)]
        } else {
            Vec::new()
        };
        fetch.take_page(arts);
    }
    assert_eq!(requests, 2);
    assert_eq!(fetch.articles().len(), 2);
}

#[test]
fn fetch_appends_pages_in_order() {
    let mut fetch = PageFetch::new();
    assert!(!fetch.take_page(vec![article(1, "a", false, None, None)]));
    assert_eq!(fetch.next_page(), Some(2));
    assert!(!fetch.take_page(vec![article(2, "b", true, None, None), article(3, "c", false, None, None)]));
    assert_eq!(fetch.next_page(), Some(3));
    assert!(fetch.take_page(Vec::new()));
    let all = fetch.into_articles();
    assert_eq!(all.iter().map(|a| a.id).collect::<Vec<u64>>(), vec![1, 2, 3]);
    assert_eq!(PER_PAGE, 1000);
}

#[test]
fn command_priorities() {
    assert_eq!(
        command_from_args(Some("k".to_string()), Some("q".to_string()), true, true),
        Command::SetApiKey("k".to_string())
    );
    assert_eq!(
        command_from_args(None, Some("q".to_string()), false, true),
        Command::Browse { refresh: false, selection: Selection::AllDrafts }
    );
    assert_eq!(
        command_from_args(None, Some("q".to_string()), true, false),
        Command::Browse { refresh: true, selection: Selection::Search("q".to_string()) }
    );
    assert_eq!(
        command_from_args(None, None, false, false),
        Command::Browse { refresh: false, selection: Selection::Usage }
    );
}

#[test]
fn fetch_decision() {
    assert!(needs_fetch(true, 10));
    assert!(needs_fetch(false, 0));
    assert!(!needs_fetch(false, 3));
}

#[test]
fn config_dir_from_home() {
    let dir = config_dir_under(Some(PathBuf::from("/home/someone")));
    assert_eq!(dir, Ok(PathBuf::from("/home/someone/.dtdrafts")));
    assert_eq!(config_dir_under(None), Err(PathError::NoHomeDirectory));
}

#[test]
fn config_and_cache_files_share_a_directory() {
    if let (Ok(config), Ok(cache)) = (get_config_file(), get_cache_file()) {
        assert!(config.ends_with(".dtdrafts/config.json"));
        assert!(cache.ends_with(".dtdrafts/articles_cache.json"));
        assert_eq!(config.parent(), cache.parent());
    }
}

#[test]
fn page_addresses() {
    assert_eq!(page_url(1), "https://dev.to/api/articles/me/unpublished?page=1&per_page=1000");
    assert_eq!(page_url(20), "https://dev.to/api/articles/me/unpublished?page=20&per_page=1000");
    assert_eq!(
        page_url(u64::MAX),
        "https://dev.to/api/articles/me/unpublished?page=18446744073709551615&per_page=1000"
    );
}

#[test]
fn page_estimate_rounds_up() {
    assert_eq!(estimated_pages(0), 0);
    assert_eq!(estimated_pages(1), 1);
    assert_eq!(estimated_pages(1000), 1);
    assert_eq!(estimated_pages(1001), 2);
    assert_eq!(estimated_pages(2500), 3);
}

#[test]
fn files_inside_config_dir() {
    let dir = PathBuf::from("/home/someone/.dtdrafts");
    let config = config_file_in(dir.clone());
    let cache = cache_file_in(dir.clone());
    assert_eq!(config, PathBuf::from("/home/someone/.dtdrafts/config.json"));
    assert_eq!(cache, PathBuf::from("/home/someone/.dtdrafts/articles_cache.json"));
    assert_eq!(config.parent(), Some(dir.as_path()));
    assert_eq!(cache.parent(), Some(dir.as_path()));
    assert_ne!(config.file_name(), cache.file_name());
}
