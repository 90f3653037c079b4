//! Subscription records, the URLs derived from them, and the state of a
//! paginated retrieval of the subscription list.

use vstd::prelude::*;
use crate::text::{is_prefix_of, starts_with};

verus! {

/// Scope of the bearer token: read-only access to the account's data.
pub const READONLY_SCOPE: &'static str = "https://www.googleapis.com/auth/youtube.readonly";


/// The text in front of a channel id in its feed URL.
pub open spec fn feed_url_prefix() -> Seq<char> {
    "https://www.youtube.com/feeds/videos.xml?channel_id="@
}

/// The text in front of a channel id in its page URL.
pub open spec fn channel_url_prefix() -> Seq<char> {
    "https://www.youtube.com/channel/"@
}

/// Feed URL of the channel with id `channel`.
pub open spec fn feed_url_of(channel: Seq<char>) -> Seq<char> {
    feed_url_prefix() + channel
}

/// Page URL of the channel with id `channel`.
pub open spec fn channel_url_of(channel: Seq<char>) -> Seq<char> {
    channel_url_prefix() + channel
}

/// The channel id that a feed URL names, if it has the feed URL's shape.
pub open spec fn channel_of_feed_url(url: Seq<char>) -> Option<Seq<char>> {
    if is_prefix_of(feed_url_prefix(), url) {
        Some(url.skip(feed_url_prefix().len() as int))
    } else {
        None
    }
}

/// One subscription: the channel's title and its id.
#[derive(Debug)]
pub struct YoutubeSubscription {
    pub title: String,
    pub channel: String,
}

impl YoutubeSubscription {
    /// The channel's feed URL.
    pub fn channel_feed_url(&self) -> (r: String)
        ensures
            r@ == feed_url_of(self.channel@),
    {
        let mut r = String::from_str("https://www.youtube.com/feeds/videos.xml?channel_id=");
        r.append(self.channel.as_str());
        r
    }

    /// The channel's page URL.
    pub fn channel_url(&self) -> (r: String)
        ensures
            r@ == channel_url_of(self.channel@),
    {
        let mut r = String::from_str("https://www.youtube.com/channel/");
        r.append(self.channel.as_str());
        r
    }
}

/// Recovers the channel id from a feed URL; `None` when the URL does not
/// start with the feed URL's fixed part.
pub fn channel_id_from_feed_url(url: &str) -> (r: Option<String>)
    ensures
        r matches Some(c) ==> channel_of_feed_url(url@) == Some(c@),
        r is None <==> channel_of_feed_url(url@) is None,
{
    let prefix = "https://www.youtube.com/feeds/videos.xml?channel_id=";
    if starts_with(url, prefix) {
        let n = prefix.unicode_len();
        let m = url.unicode_len();
        let rest = url.substring_char(n, m);
        proof {
            assert(rest@ =~= url@.skip(feed_url_prefix().len() as int));
        }
        Some(String::from_str(rest))
    } else {
        None
    }
}

/// A channel's feed URL names that channel again: parsing the feed URL
/// recovers the channel id it was built from.
pub proof fn lemma_feed_url_round_trip(channel: Seq<char>)
    ensures
        channel_of_feed_url(feed_url_of(channel)) == Some(channel),
{
    let u = feed_url_of(channel);
    let n = feed_url_prefix().len() as int;
    assert(u.subrange(0, n) =~= feed_url_prefix());
    assert(u.skip(n) =~= channel);
}

/// The views of an optional string.
pub open spec fn opt_view(o: Option<String>) -> Option<Seq<char>> {
    match o {
        Some(s) => Some(s@),
        None => None,
    }
}

/// Request URL for one page of the subscription list: the first page
/// carries no page token, each later one the token the previous page gave.
pub open spec fn page_url(token: Option<Seq<char>>) -> Seq<char> {
    match token {
        None => "https://youtube.googleapis.com/youtube/v3/subscriptions?part=snippet&mine=true&order=alphabetical&maxResults=50"@,
        Some(t) => "https://youtube.googleapis.com/youtube/v3/subscriptions?part=snippet&mine=true&maxResults=50&order=alphabetical&pageToken="@
            + t,
    }
}

/// Builds the request URL for the page that `token` points at; the token
/// is copied verbatim.
pub fn subscriptions_page_url(token: &Option<String>) -> (r: String)
    ensures
        r@ == page_url(opt_view(*token)),
{
    match token {
        None => String::from_str(
            "https://youtube.googleapis.com/youtube/v3/subscriptions?part=snippet&mine=true&order=alphabetical&maxResults=50",
        ),
        Some(t) => {
            let mut r = String::from_str(
                "https://youtube.googleapis.com/youtube/v3/subscriptions?part=snippet&mine=true&maxResults=50&order=alphabetical&pageToken=",
            );
            r.append(t.as_str());
            r
        },
    }
}

/// One page of the subscription list as the service returned it.
#[derive(Debug)]
pub struct SubscriptionPage {
    pub items: Vec<YoutubeSubscription>,
    pub total_results: i32,
    pub next_page_token: Option<String>,
}

/// Where a paginated retrieval stands: the records gathered so far, the
/// token of the next page, and whether the last page has been seen.
pub struct PagingState {
    pub items: Seq<YoutubeSubscription>,
    pub token: Option<Seq<char>>,
    pub finished: bool,
}

/// The state before any page was fetched.
pub open spec fn initial_paging() -> PagingState {
    PagingState { items: Seq::empty(), token: None, finished: false }
}

/// The state after merging one more page.
pub open spec fn after_page(s: PagingState, p: SubscriptionPage) -> PagingState {
    PagingState {
        items: s.items + p.items@,
        token: opt_view(p.next_page_token),
        finished: p.next_page_token is None,
    }
}

/// The state after merging `pages` in order, from the start.
pub open spec fn after_pages(pages: Seq<SubscriptionPage>) -> PagingState
    decreases pages.len(),
{
    if pages.len() == 0 {
        initial_paging()
    } else {
        after_page(after_pages(pages.drop_last()), pages.last())
    }
}

/// The records of `pages`, page after page, each page in its own order.
pub open spec fn concat_items(pages: Seq<SubscriptionPage>) -> Seq<YoutubeSubscription>
    decreases pages.len(),
{
    if pages.len() == 0 {
        Seq::empty()
    } else {
        concat_items(pages.drop_last()) + pages.last().items@
    }
}

/// The request to issue next in state `s`, or `None` once finished.
pub open spec fn next_request(s: PagingState) -> Option<Seq<char>> {
    if s.finished {
        None
    } else {
        Some(page_url(s.token))
    }
}

/// Drives the paginated retrieval: it says which page to request next and
/// merges each page that comes back.
pub struct PageCursor {
    pub items: Vec<YoutubeSubscription>,
    pub token: Option<String>,
    pub finished: bool,
}

impl View for PageCursor {
    type V = PagingState;

    open spec fn view(&self) -> PagingState {
        PagingState { items: self.items@, token: opt_view(self.token), finished: self.finished }
    }
}

impl PageCursor {
    /// A cursor before the first page.
    pub fn new() -> (r: PageCursor)
        ensures
            r@ == initial_paging(),
    {
        PageCursor { items: Vec::new(), token: None, finished: false }
    }

    /// The URL of the page to fetch next, or `None` once the last page
    /// has been merged.
    pub fn next_request_url(&self) -> (r: Option<String>)
        ensures
            opt_view(r) == next_request(self@),
    {
        if self.finished {
            None
        } else {
            Some(subscriptions_page_url(&self.token))
        }
    }

    /// Merges a fetched page: its records are appended in order and its
    /// token becomes the next one. Returns the progress to report: the
    /// number of records gathered and the total the page announced.
    pub fn absorb(&mut self, page: SubscriptionPage) -> (progress: (usize, i32))
        ensures
            final(self)@ == after_page(old(self)@, page),
            progress.0 == final(self)@.items.len(),
            progress.1 == page.total_results,
    {
        let SubscriptionPage { items, total_results, next_page_token } = page;
        let mut items = items;
        self.items.append(&mut items);
        self.finished = next_page_token.is_none();
        self.token = next_page_token;
        (self.items.len(), total_results)
    }

    /// Whether the last page has been merged.
    pub fn is_finished(&self) -> (r: bool)
        ensures
            r == self@.finished,
    {
        self.finished
    }

    /// The records gathered, in the order the pages gave them.
    pub fn into_items(self) -> (r: Vec<YoutubeSubscription>)
        ensures
            r@ == self@.items,
    {
        self.items
    }
}

/// Merging pages one by one gathers every page's records in order; the
/// retrieval is finished exactly when the last page merged had no next
/// token, and until then each request carries the token of the page
/// before it.
pub proof fn lemma_pagination(pages: Seq<SubscriptionPage>)
    ensures
        after_pages(pages).items == concat_items(pages),
        after_pages(pages).finished <==> (pages.len() > 0 && pages.last().next_page_token is None),
        pages.len() > 0 ==> next_request(after_pages(pages)) == (match pages.last().next_page_token {
            Some(t) => Some(page_url(Some(t@))),
            None => None,
        }),
    decreases pages.len(),
{
    if pages.len() > 0 {
        lemma_pagination(pages.drop_last());
    }
}

/// When every page but the last carries a next token, the retrieval makes
/// exactly one request per page: it is unfinished after each strict prefix
/// and finished after all of them, holding the concatenation of the pages.
pub proof fn lemma_pagination_request_count(pages: Seq<SubscriptionPage>)
    requires
        pages.len() > 0,
        forall|i: int| 0 <= i < pages.len() - 1 ==> (#[trigger] pages[i]).next_page_token is Some,
        pages.last().next_page_token is None,
    ensures
        forall|k: int| 0 <= k < pages.len() ==> !(#[trigger] after_pages(pages.take(k))).finished,
        after_pages(pages).finished,
        next_request(after_pages(pages)) is None,
        after_pages(pages).items == concat_items(pages),
{
    lemma_pagination(pages);
    assert forall|k: int| 0 <= k < pages.len() implies !(#[trigger] after_pages(pages.take(k))).finished by {
        lemma_pagination(pages.take(k));
        if k > 0 {
            assert(pages.take(k).last() == pages[k - 1]);
        }
    }
}

} // verus!
