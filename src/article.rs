use vstd::prelude::*;

verus! {

/// The author of an article, as the remote service reports it.
#[derive(Debug)]
pub struct ArticleUser {
    pub username: String,
}

/// One article as the remote service reports it and as the cache keeps it.
#[derive(Debug)]
pub struct Article {
    pub id: u64,
    pub title: String,
    pub description: Option<String>,
    pub body_markdown: Option<String>,
    pub url: String,
    pub canonical_url: Option<String>,
    pub url_with_preview: Option<String>,
    pub published: bool,
    pub created_at: Option<String>,
    pub updated_at: Option<String>,
    pub tags: Option<Vec<String>>,
    pub slug: String,
    pub user: ArticleUser,
}

/// The stored configuration: the API key of the account.
#[derive(Debug)]
pub struct Config {
    pub api_key: String,
}

/// An article that has not been published yet.
pub open spec fn is_draft(a: Article) -> bool {
    !a.published
}

/// The address of the page on which the author edits the article.
pub open spec fn edit_url_spec(a: Article) -> Seq<char> {
    "https://dev.to/"@ + a.user.username@ + "/"@ + a.slug@ + "/edit"@
}

/// Builds the address of the editing page: the site, the author's user
/// name, the slug and the edit suffix.
pub fn edit_url(article: &Article) -> (r: String)
    ensures
        r@ == edit_url_spec(*article),
{
    let mut r = String::from_str("https://dev.to/");
    r.append(article.user.username.as_str());
    r.append("/");
    r.append(article.slug.as_str());
    r.append("/edit");
    r
}

} // verus!
