//! The per-URL memo of previews, and what a request does with it.
//!
//! A lookup borrows the cache shared and a store borrows it exclusively, so a
//! program that keeps the cache behind a reader-writer lock holds the read
//! side for [`preview`] and the write side for [`store_fetched`], and neither
//! across the fetch between them.

use crate::record::{OgPreviewRes, PreviewView};
use vstd::hash_map::StringHashMap;
use vstd::prelude::*;

verus! {

/// URL to preview record. The key is the URL as it was asked for. Entries are
/// never evicted; a later write for a key replaces the earlier one whole.
pub struct LinkCache {
    cache: StringHashMap<OgPreviewRes>,
}

impl View for LinkCache {
    type V = Map<Seq<char>, PreviewView>;

    closed spec fn view(&self) -> Map<Seq<char>, PreviewView> {
        self.cache@.map_values(|r: OgPreviewRes| r@)
    }
}

impl LinkCache {
    /// The empty cache.
    pub fn new() -> (cache: LinkCache)
        ensures
            cache@ == Map::<Seq<char>, PreviewView>::empty(),
    {
        LinkCache { cache: StringHashMap::new() }
    }

    /// The record kept under `key`, if there is one.
    pub fn read(&self, key: &str) -> (found: Option<&OgPreviewRes>)
        ensures
            found is Some <==> self@.contains_key(key@),
            found matches Some(record) ==> record@ == self@[key@],
    {
        self.cache.get(key)
    }

    /// Keeps `record` under `key`, in place of what was there.
    pub fn write(&mut self, key: String, record: OgPreviewRes)
        ensures
            final(self)@ == old(self)@.insert(key@, record@),
    {
        self.cache.insert(key, record);
    }
}

/// What the handler does next for a request.
#[derive(Debug)]
pub enum PreviewAction {
    /// Answer with this record.
    Respond(OgPreviewRes),
    /// Nothing is known of this URL: fetch it, then call [`store_fetched`].
    Fetch(String),
}

/// The value of a [`PreviewAction`].
pub enum PreviewActionView {
    Respond(PreviewView),
    Fetch(Seq<char>),
}

impl View for PreviewAction {
    type V = PreviewActionView;

    open spec fn view(&self) -> PreviewActionView {
        match self {
            PreviewAction::Respond(record) => PreviewActionView::Respond(record@),
            PreviewAction::Fetch(url) => PreviewActionView::Fetch(url@),
        }
    }
}

/// A request without a URL is answered with the empty record, a URL that the
/// cache knows with the record kept for it, unchanged; any other URL is to be
/// fetched.
pub open spec fn preview_spec(
    cache: Map<Seq<char>, PreviewView>,
    url: Option<Seq<char>>,
) -> PreviewActionView {
    match url {
        None => PreviewActionView::Respond(PreviewView::failed()),
        Some(u) => if cache.contains_key(u) {
            PreviewActionView::Respond(cache[u])
        } else {
            PreviewActionView::Fetch(u)
        },
    }
}

/// The cache after the record fetched for `url` was stored: it holds a copy
/// marked as cached under `url`, and is otherwise as before.
pub open spec fn store_spec(
    cache: Map<Seq<char>, PreviewView>,
    url: Seq<char>,
    fetched: PreviewView,
) -> Map<Seq<char>, PreviewView> {
    cache.insert(url, fetched.stored())
}

/// First step of a request: decide from the URL parameter and the cache.
pub fn preview(cache: &LinkCache, url: Option<&str>) -> (action: PreviewAction)
    ensures
        action@ == preview_spec(cache@, url.deep_view()),
{
    match url {
        None => PreviewAction::Respond(OgPreviewRes::new()),
        Some(u) => match cache.read(u) {
            Some(record) => PreviewAction::Respond(record.duplicate()),
            None => PreviewAction::Fetch(u.to_owned()),
        },
    }
}

/// Second step of a request that had to fetch: the fresh record is the
/// answer, and a copy marked as cached goes into the cache.
pub fn store_fetched(cache: &mut LinkCache, url: &str, fetched: OgPreviewRes) -> (response:
    OgPreviewRes)
    ensures
        response@ == fetched@,
        final(cache)@ == store_spec(old(cache)@, url@, fetched@),
{
    let kept = fetched.duplicate().mark_cached();
    cache.write(url.to_owned(), kept);
    fetched
}

/// One whole request: the answer, and the cache afterwards. `fetched` is what
/// the fetch delivers if the request comes to one.
pub open spec fn request_spec(
    cache: Map<Seq<char>, PreviewView>,
    url: Option<Seq<char>>,
    fetched: PreviewView,
) -> (PreviewView, Map<Seq<char>, PreviewView>) {
    match preview_spec(cache, url) {
        PreviewActionView::Respond(record) => (record, cache),
        PreviewActionView::Fetch(u) => (fetched, store_spec(cache, u, fetched)),
    }
}

/// The cache after the records of several fetches of `url` were stored one
/// after the other, in the order in which their stores took the cache.
pub open spec fn store_all(
    cache: Map<Seq<char>, PreviewView>,
    url: Seq<char>,
    fetched: Seq<PreviewView>,
) -> Map<Seq<char>, PreviewView>
    decreases fetched.len(),
{
    if fetched.len() == 0 {
        cache
    } else {
        store_spec(store_all(cache, url, fetched.drop_last()), url, fetched.last())
    }
}

/// A URL that was fetched and stored is a hit from then on: the next request
/// for it is answered from the cache, with the content that the fetch
/// delivered and marked as cached. In particular the answer is ok if the
/// fetch was.
pub proof fn lemma_hit_after_store(
    cache: Map<Seq<char>, PreviewView>,
    url: Seq<char>,
    fetched: PreviewView,
)
    ensures
        preview_spec(store_spec(cache, url, fetched), Some(url)) == PreviewActionView::Respond(
            fetched.stored(),
        ),
        fetched.stored().same_content(fetched),
        fetched.stored().cached == Some(true),
        fetched.wf() ==> fetched.stored().wf(),
{
}

/// Asking twice for a URL that the cache did not know: the first answer is
/// the fresh record, the second comes from the cache without a fetch, with
/// the same content and marked as cached, and from then on the cache stays as
/// it is.
pub proof fn lemma_second_request_is_hit(
    cache: Map<Seq<char>, PreviewView>,
    url: Seq<char>,
    first_fetch: PreviewView,
    second_fetch: PreviewView,
)
    requires
        !cache.contains_key(url),
    ensures
        ({
            let (first, after_first) = request_spec(cache, Some(url), first_fetch);
            let (second, after_second) = request_spec(after_first, Some(url), second_fetch);
            &&& first == first_fetch
            &&& second == first_fetch.stored()
            &&& second.same_content(first)
            &&& second.cached == Some(true)
            &&& after_second == after_first
        }),
{
}

/// A request without a URL is answered with the empty record and leaves the
/// cache alone.
pub proof fn lemma_no_url_no_effect(cache: Map<Seq<char>, PreviewView>, fetched: PreviewView)
    ensures
        request_spec(cache, None, fetched) == (PreviewView::failed(), cache),
{
}

/// Storing the record of one URL leaves every other URL as it was: a hit stays
/// the same hit and a miss stays a miss.
pub proof fn lemma_store_keeps_others(
    cache: Map<Seq<char>, PreviewView>,
    url: Seq<char>,
    fetched: PreviewView,
    other: Seq<char>,
)
    requires
        other != url,
    ensures
        preview_spec(store_spec(cache, url, fetched), Some(other)) == preview_spec(
            cache,
            Some(other),
        ),
{
}

/// When several requests for one URL all miss and all fetch, the cache ends up
/// with the record of the fetch that stored last, whole: one of the fetched
/// records, marked as cached, and never a blend of two. Every other URL is as
/// it was.
pub proof fn lemma_last_store_wins(
    cache: Map<Seq<char>, PreviewView>,
    url: Seq<char>,
    fetched: Seq<PreviewView>,
)
    requires
        fetched.len() > 0,
    ensures
        store_all(cache, url, fetched).contains_key(url),
        store_all(cache, url, fetched)[url] == fetched.last().stored(),
        (forall|i: int| 0 <= i < fetched.len() ==> (#[trigger] fetched[i]).wf()) ==> store_all(
            cache,
            url,
            fetched,
        )[url].wf(),
        store_all(cache, url, fetched).remove(url) == cache.remove(url),
    decreases fetched.len(),
{
    let before = store_all(cache, url, fetched.drop_last());
    if fetched.len() > 1 {
        lemma_last_store_wins(cache, url, fetched.drop_last());
    } else {
        assert(before == cache);
    }
    assert(store_all(cache, url, fetched).remove(url) =~= before.remove(url));
}

} // verus!
