use vstd::prelude::*;

use crate::article::Article;

verus! {

/// Number of articles asked for in each page request.
pub const PER_PAGE: u64 = 1000;

/// Base address of the remote API.
pub const API_BASE: &'static str = "https://dev.to/api";

/// Why a page request was not accepted.
#[derive(Debug, PartialEq, Eq)]
pub enum FetchError {
    /// The service answered with a status outside the success range.
    Status(u16),
}

/// The answer to a page request is accepted when its status is a success.
pub fn check_status(status: u16) -> (r: Result<(), FetchError>)
    ensures
        r is Ok <==> 200 <= status <= 299,
        r is Err ==> r == Err::<(), FetchError>(FetchError::Status(status)),
{
    if 200 <= status && status <= 299 {
        Ok(())
    } else {
        Err(FetchError::Status(status))
    }
}

/// What a fetch in progress amounts to.
pub struct FetchView {
    /// The page to request next, or the last one requested once finished.
    pub page: nat,
    /// Every article received so far, pages in order.
    pub articles: Seq<Article>,
    /// An empty page has arrived.
    pub finished: bool,
}

/// A fetch before any request.
pub open spec fn initial_fetch() -> FetchView {
    FetchView { page: 1, articles: Seq::empty(), finished: false }
}

/// The effect of receiving one page: an empty page ends the fetch, any other
/// is appended and the next page comes due.
pub open spec fn after_page(s: FetchView, page: Seq<Article>) -> FetchView {
    if page.len() == 0 {
        FetchView { finished: true, ..s }
    } else {
        FetchView { page: s.page + 1, articles: s.articles + page, finished: false }
    }
}

/// How many page requests a fetch has issued.
pub open spec fn requests_made(s: FetchView) -> nat {
    if s.finished {
        s.page
    } else {
        (s.page - 1) as nat
    }
}

/// The state of a paginated fetch of every unpublished article: the caller
/// requests the page that `next_page` names and hands what came back to
/// `take_page`, until `next_page` names none.
pub struct PageFetch {
    page: u64,
    articles: Vec<Article>,
    finished: bool,
}

impl View for PageFetch {
    type V = FetchView;

    closed spec fn view(&self) -> FetchView {
        FetchView { page: self.page as nat, articles: self.articles@, finished: self.finished }
    }
}

impl PageFetch {
    /// A fetch that starts at the first page.
    pub fn new() -> (r: PageFetch)
        ensures
            r@ == initial_fetch(),
    {
        PageFetch { page: 1, articles: Vec::new(), finished: false }
    }

    /// The page to request next, if the fetch is not over.
    pub fn next_page(&self) -> (r: Option<u64>)
        ensures
            r is None <==> self@.finished,
            r matches Some(p) ==> p == self@.page,
    {
        if self.finished {
            None
        } else {
            Some(self.page)
        }
    }

    /// The articles received so far, pages in order.
    pub fn articles(&self) -> (r: &Vec<Article>)
        ensures
            r@ == self@.articles,
    {
        &self.articles
    }

    /// Records the articles of the page just requested; tells whether the
    /// fetch is over, that is whether the page was empty.
    pub fn take_page(&mut self, page: Vec<Article>) -> (done: bool)
        requires
            !old(self)@.finished,
            old(self)@.page < u64::MAX,
        ensures
            final(self)@ == after_page(old(self)@, page@),
            done == (page@.len() == 0),
            done == final(self)@.finished,
    {
        if page.len() == 0 {
            self.finished = true;
            true
        } else {
            let mut page = page;
            self.articles.append(&mut page);
            self.page = self.page + 1;
            false
        }
    }

    /// Every article received, pages in order.
    pub fn into_articles(self) -> (r: Vec<Article>)
        ensures
            r@ == self@.articles,
    {
        self.articles
    }
}

/// A fetch whose first page is empty ends after that one request; one whose
/// second page is empty ends after two, holding the first page's articles,
/// and asks for no third.
pub proof fn lemma_fetch_stops_on_empty_page(first: Seq<Article>, second: Seq<Article>)
    ensures
        first.len() == 0 ==> after_page(initial_fetch(), first).finished && requests_made(
            after_page(initial_fetch(), first),
        ) == 1,
        first.len() > 0 && second.len() == 0 ==> {
            let s = after_page(after_page(initial_fetch(), first), second);
            &&& s.finished
            &&& requests_made(s) == 2
            &&& s.articles == first
        },
{
    assert(Seq::<Article>::empty() + first == first);
}

} // verus!

verus! {

/// Name of the request header that carries the API key.
pub const API_KEY_HEADER: &'static str = "api-key";

/// The client's name, sent as the user agent of every request.
pub const USER_AGENT: &'static str = "dtdrafts/0.1.0";

/// The character of a decimal digit.
pub open spec fn digit_char(d: nat) -> char {
    if d == 0 {
        '0'
    } else if d == 1 {
        '1'
    } else if d == 2 {
        '2'
    } else if d == 3 {
        '3'
    } else if d == 4 {
        '4'
    } else if d == 5 {
        '5'
    } else if d == 6 {
        '6'
    } else if d == 7 {
        '7'
    } else if d == 8 {
        '8'
    } else {
        '9'
    }
}

/// The decimal form of `n`, most significant digit first, without leading
/// zeros.
pub open spec fn decimal(n: nat) -> Seq<char>
    decreases n,
{
    if n < 10 {
        seq![digit_char(n)]
    } else {
        decimal(n / 10) + seq![digit_char(n % 10)]
    }
}

/// The address of one page of the user's unpublished articles.
pub open spec fn page_url_spec(page: nat) -> Seq<char> {
    API_BASE@ + "/articles/me/unpublished?page="@ + decimal(page) + "&per_page="@ + decimal(
        PER_PAGE as nat,
    )
}

fn digit_str(d: u64) -> (r: &'static str)
    requires
        d < 10,
    ensures
        r@ == seq![digit_char(d as nat)],
{
    match d {
        0 => {
            proof {
                reveal_strlit("0");
            }
            "0"
        },
        1 => {
            proof {
                reveal_strlit("1");
            }
            "1"
        },
        2 => {
            proof {
                reveal_strlit("2");
            }
            "2"
        },
        3 => {
            proof {
                reveal_strlit("3");
            }
            "3"
        },
        4 => {
            proof {
                reveal_strlit("4");
            }
            "4"
        },
        5 => {
            proof {
                reveal_strlit("5");
            }
            "5"
        },
        6 => {
            proof {
                reveal_strlit("6");
            }
            "6"
        },
        7 => {
            proof {
                reveal_strlit("7");
            }
            "7"
        },
        8 => {
            proof {
                reveal_strlit("8");
            }
            "8"
        },
        _ => {
            proof {
                reveal_strlit("9");
            }
            "9"
        },
    }
}

fn append_decimal(s: &mut String, n: u64)
    ensures
        final(s)@ == old(s)@ + decimal(n as nat),
    decreases n,
{
    if n >= 10 {
        append_decimal(s, n / 10);
    }
    s.append(digit_str(n % 10));
    proof {
        if n >= 10 {
            assert(old(s)@ + decimal((n / 10) as nat) + seq![digit_char((n % 10) as nat)] =~= old(s)@ + decimal(
                n as nat,
            ));
        }
    }
}

/// The address from which page `page` of the user's unpublished articles is
/// requested, `PER_PAGE` articles at a time.
pub fn page_url(page: u64) -> (r: String)
    ensures
        r@ == page_url_spec(page as nat),
{
    let mut r = String::from_str(API_BASE);
    r.append("/articles/me/unpublished?page=");
    append_decimal(&mut r, page);
    r.append("&per_page=");
    append_decimal(&mut r, PER_PAGE);
    r
}

/// How many pages a fetch of `count` articles takes: `count / PER_PAGE`
/// rounded up.
pub fn estimated_pages(count: usize) -> (r: u64)
    ensures
        r as int == (count as int + PER_PAGE - 1) / PER_PAGE as int,
{
    let full: usize = count / 1000;
    let rest: usize = count % 1000;
    if rest == 0 {
        full as u64
    } else {
        full as u64 + 1
    }
}

} // verus!
