pub mod article;
pub mod command;
pub mod fetch;
pub mod filter;
pub mod paths;
pub mod text;

pub use article::{edit_url, Article, ArticleUser, Config};
pub use command::{command_from_args, needs_fetch, Command, Selection};
pub use fetch::{
    check_status, estimated_pages, page_url, FetchError, PageFetch, API_BASE, API_KEY_HEADER, PER_PAGE,
    USER_AGENT,
};
pub use filter::{article_matches, get_draft_articles, search_articles};
pub use paths::{
    cache_file_in, config_dir_under, config_file_in, get_cache_file, get_config_dir, get_config_file,
    PathError,
};
pub use text::contains_chars;
