use vstd::prelude::*;

use crate::article::{is_draft, Article};
use crate::text::{contains_chars, lower_of, lowercase_chars, seq_contains};

verus! {

/// The lowercase form of `text` holds the already lowercased query.
pub open spec fn text_matches(text: Seq<char>, query_lower: Seq<char>) -> bool {
    seq_contains(lower_of(text), query_lower)
}

/// The article has a body and the body matches.
pub open spec fn body_matches(a: Article, query_lower: Seq<char>) -> bool {
    match a.body_markdown {
        Some(b) => text_matches(b@, query_lower),
        None => false,
    }
}

/// The article has tags and one of them matches.
pub open spec fn tag_matches(a: Article, query_lower: Seq<char>) -> bool {
    match a.tags {
        Some(t) => exists|j: int| 0 <= j < t@.len() && #[trigger] text_matches(t@[j]@, query_lower),
        None => false,
    }
}

/// A draft whose title, body or one of whose tags holds the query.
pub open spec fn is_match(a: Article, query_lower: Seq<char>) -> bool {
    is_draft(a) && (text_matches(a.title@, query_lower) || body_matches(a, query_lower)
        || tag_matches(a, query_lower))
}

/// The drafts among `articles`, in their order.
pub open spec fn drafts_of(articles: Seq<Article>) -> Seq<Article> {
    articles.filter(|a: Article| is_draft(a))
}

/// The published articles among `articles`, in their order.
pub open spec fn published_of(articles: Seq<Article>) -> Seq<Article> {
    articles.filter(|a: Article| a.published)
}

/// The articles that a search for `query` selects, in their order.
pub open spec fn search_result(articles: Seq<Article>, query: Seq<char>) -> Seq<Article> {
    articles.filter(|a: Article| is_match(a, lower_of(query)))
}

/// The articles that a sequence of references points to.
pub open spec fn targets(refs: Seq<&Article>) -> Seq<Article> {
    refs.map_values(|a: &Article| *a)
}

/// Whether the article is selected by a query that is already lowercase.
pub fn article_matches(article: &Article, query_lower: &[char]) -> (r: bool)
    ensures
        r == is_match(*article, query_lower@),
{
    if article.published {
        return false;
    }
    let title = lowercase_chars(article.title.as_str());
    if contains_chars(title.as_slice(), query_lower) {
        return true;
    }
    if let Some(body) = &article.body_markdown {
        let body_lower = lowercase_chars(body.as_str());
        if contains_chars(body_lower.as_slice(), query_lower) {
            return true;
        }
    }
    match &article.tags {
        Some(tags) => {
            let mut j: usize = 0;
            while j < tags.len()
                invariant
                    !article.published,
                    article.tags == Some(*tags),
                    j <= tags@.len(),
                    forall|k: int| 0 <= k < j ==> !#[trigger] text_matches(tags@[k]@, query_lower@),
                decreases tags@.len() - j,
            {
                let tag = lowercase_chars(tags[j].as_str());
                if contains_chars(tag.as_slice(), query_lower) {
                    assert(article.tags->0@[j as int] == tags@[j as int]);
                    assert(text_matches(tags@[j as int]@, query_lower@));
                    return true;
                }
                j = j + 1;
            }
            false
        },
        None => false,
    }
}

/// The drafts among `articles` whose title, body or a tag holds `query`,
/// compared without regard to case, in their order.
pub fn search_articles<'a>(articles: &'a [Article], query: &str) -> (r: Vec<&'a Article>)
    ensures
        targets(r@) == search_result(articles@, query@),
{
    let query_lower = lowercase_chars(query);
    let mut r: Vec<&'a Article> = Vec::new();
    let mut i: usize = 0;
    while i < articles.len()
        invariant
            i <= articles@.len(),
            query_lower@ == lower_of(query@),
            targets(r@) == search_result(articles@.subrange(0, i as int), query@),
        decreases articles@.len() - i,
    {
        let a = &articles[i];
        let hit = article_matches(a, query_lower.as_slice());
        proof {
            assert(articles@.subrange(0, i + 1) == articles@.subrange(0, i as int).push(*a));
            articles@.subrange(0, i as int).lemma_filter_push(
                *a,
                |x: Article| is_match(x, lower_of(query@)),
            );
        }
        let ghost prev = r@;
        if hit {
            r.push(a);
            assert(targets(r@) =~= targets(prev).push(*a));
        }
        i = i + 1;
    }
    assert(articles@.subrange(0, articles@.len() as int) == articles@);
    r
}

/// The drafts among `articles`, in their order.
pub fn get_draft_articles(articles: &[Article]) -> (r: Vec<&Article>)
    ensures
        targets(r@) == drafts_of(articles@),
{
    let mut r: Vec<&Article> = Vec::new();
    let mut i: usize = 0;
    while i < articles.len()
        invariant
            i <= articles@.len(),
            targets(r@) == drafts_of(articles@.subrange(0, i as int)),
        decreases articles@.len() - i,
    {
        let a = &articles[i];
        proof {
            assert(articles@.subrange(0, i + 1) == articles@.subrange(0, i as int).push(*a));
            articles@.subrange(0, i as int).lemma_filter_push(*a, |x: Article| is_draft(x));
        }
        let ghost prev = r@;
        if !a.published {
            r.push(a);
            assert(targets(r@) =~= targets(prev).push(*a));
        }
        i = i + 1;
    }
    assert(articles@.subrange(0, articles@.len() as int) == articles@);
    r
}

} // verus!

verus! {

/// The drafts are the unpublished articles, in their order, and together
/// with the published ones they account for every article.
pub proof fn lemma_drafts_partition(articles: Seq<Article>)
    ensures
        forall|i: int| 0 <= i < drafts_of(articles).len() ==> !(#[trigger] drafts_of(articles)[i]).published,
        forall|i: int|
            0 <= i < articles.len() && !articles[i].published ==> drafts_of(articles).contains(
                #[trigger] articles[i],
            ),
        drafts_of(articles).len() + published_of(articles).len() == articles.len(),
    decreases articles.len(),
{
    broadcast use Seq::lemma_filter_pred, Seq::lemma_filter_contains;

    if articles.len() > 0 {
        let rest = articles.drop_last();
        lemma_drafts_partition(rest);
        assert(articles == rest.push(articles.last()));
        rest.lemma_filter_push(articles.last(), |a: Article| is_draft(a));
        rest.lemma_filter_push(articles.last(), |a: Article| a.published);
    }
}

/// A search does not depend on the case of the query: two queries with the
/// same lowercase form select the same articles.
pub proof fn lemma_search_ignores_case(articles: Seq<Article>, q1: Seq<char>, q2: Seq<char>)
    requires
        lower_of(q1) == lower_of(q2),
    ensures
        search_result(articles, q1) == search_result(articles, q2),
{
}

/// A search never selects a published article.
pub proof fn lemma_search_only_drafts(articles: Seq<Article>, query: Seq<char>)
    ensures
        forall|i: int|
            0 <= i < search_result(articles, query).len() ==> !(#[trigger] search_result(
                articles,
                query,
            )[i]).published,
{
    broadcast use Seq::lemma_filter_pred;

}

/// A draft is selected as soon as the lowercase query occurs in its title,
/// in its body if it has one, or in one of its tags if it has any.
pub proof fn lemma_search_finds_any_field(articles: Seq<Article>, query: Seq<char>, i: int)
    requires
        0 <= i < articles.len(),
        !articles[i].published,
        text_matches(articles[i].title@, lower_of(query)) || body_matches(
            articles[i],
            lower_of(query),
        ) || tag_matches(articles[i], lower_of(query)),
    ensures
        search_result(articles, query).contains(articles[i]),
{
    broadcast use Seq::lemma_filter_contains;

}

} // verus!
