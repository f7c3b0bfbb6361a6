//! The two-phase fetch, as a protocol.
//!
//! A fetch first probes the URL for its headers, downloads the body only if
//! the probe says `text/html`, and then reads the preview off the body. The
//! network is not this crate's: a [`Fetch`] says what to send next, and is
//! told what came back.

use crate::extract::{lemma_parsed_wf, parse_body, parse_spec};
use crate::record::{OgPreviewRes, PreviewView};
use vstd::prelude::*;

verus! {

/// The media type of a response: the two halves of `type/subtype`, in lower
/// case, parameters left aside.
#[derive(Debug, Clone)]
pub struct MediaType {
    pub top_level: String,
    pub sub_level: String,
}

/// The value of a [`MediaType`].
pub struct MediaTypeView {
    pub top_level: Seq<char>,
    pub sub_level: Seq<char>,
}

impl MediaTypeView {
    /// Exactly `text/html`.
    pub open spec fn is_html(self) -> bool {
        self.top_level == "text"@ && self.sub_level == "html"@
    }
}

impl View for MediaType {
    type V = MediaTypeView;

    open spec fn view(&self) -> MediaTypeView {
        MediaTypeView { top_level: self.top_level@, sub_level: self.sub_level@ }
    }
}

impl MediaType {
    /// Whether this is `text/html`.
    pub fn is_html(&self) -> (b: bool)
        ensures
            b == self@.is_html(),
    {
        let text = "text".to_owned();
        let html = "html".to_owned();
        self.top_level == text && self.sub_level == html
    }
}

/// Where a fetch stands.
#[derive(Debug, Clone, Copy, PartialEq, Eq, Structural)]
pub enum FetchPhase {
    /// The probe is out.
    Probing,
    /// The probe said HTML and the download is out.
    Downloading,
    /// The record was delivered.
    Done,
}

/// What the network said.
#[derive(Debug)]
pub enum FetchEvent {
    /// The probe could not be sent, or was not answered.
    ProbeFailed,
    /// The probe was answered; the response declared this content type, or
    /// none.
    ProbeAnswered(Option<MediaType>),
    /// The download could not be made, or its body could not be read.
    BodyFailed,
    /// The download was answered with this body.
    BodyReceived(Vec<u8>),
}

/// The value of a [`FetchEvent`].
pub enum FetchEventView {
    ProbeFailed,
    ProbeAnswered(Option<MediaTypeView>),
    BodyFailed,
    BodyReceived(Seq<u8>),
}

impl View for FetchEvent {
    type V = FetchEventView;

    open spec fn view(&self) -> FetchEventView {
        match self {
            FetchEvent::ProbeFailed => FetchEventView::ProbeFailed,
            FetchEvent::ProbeAnswered(Some(t)) => FetchEventView::ProbeAnswered(Some(t@)),
            FetchEvent::ProbeAnswered(None) => FetchEventView::ProbeAnswered(None),
            FetchEvent::BodyFailed => FetchEventView::BodyFailed,
            FetchEvent::BodyReceived(body) => FetchEventView::BodyReceived(body@),
        }
    }
}

/// What to do next.
#[derive(Debug)]
pub enum FetchAction {
    /// Send a header-only request to this URL.
    SendProbe(String),
    /// Send a full GET request to this URL.
    SendGet(String),
    /// The fetch is over, and this is its record.
    Deliver(OgPreviewRes),
}

/// The value of a [`FetchAction`].
pub enum FetchActionView {
    SendProbe(Seq<char>),
    SendGet(Seq<char>),
    Deliver(PreviewView),
}

impl View for FetchAction {
    type V = FetchActionView;

    open spec fn view(&self) -> FetchActionView {
        match self {
            FetchAction::SendProbe(url) => FetchActionView::SendProbe(url@),
            FetchAction::SendGet(url) => FetchActionView::SendGet(url@),
            FetchAction::Deliver(record) => FetchActionView::Deliver(record@),
        }
    }
}

/// One fetch of one URL.
#[derive(Debug)]
pub struct Fetch {
    url: String,
    phase: FetchPhase,
}

/// The value of a [`Fetch`].
pub struct FetchView {
    pub url: Seq<char>,
    pub phase: FetchPhase,
}

impl View for Fetch {
    type V = FetchView;

    closed spec fn view(&self) -> FetchView {
        FetchView { url: self.url@, phase: self.phase }
    }
}

impl FetchView {
    /// The fetch over, whatever it was waiting for.
    pub open spec fn done(self) -> FetchView {
        FetchView { phase: FetchPhase::Done, ..self }
    }

    /// The fetch over, with nothing found.
    pub open spec fn fail(self) -> (FetchView, FetchActionView) {
        (self.done(), FetchActionView::Deliver(PreviewView::failed()))
    }

    /// A fetch begins with the probe.
    pub open spec fn start(url: Seq<char>) -> (FetchView, FetchActionView) {
        (FetchView { url, phase: FetchPhase::Probing }, FetchActionView::SendProbe(url))
    }

    /// The protocol. A probe that is answered with `text/html` is followed by
    /// the download, from the same URL; a body that arrives is parsed and its
    /// record delivered. Everything else ends the fetch with the empty record:
    /// a failure of either request, a probe answered with another content type
    /// or with none, and any event that the fetch was not waiting for.
    pub open spec fn step(self, event: FetchEventView) -> (FetchView, FetchActionView) {
        match (self.phase, event) {
            (FetchPhase::Probing, FetchEventView::ProbeAnswered(Some(content_type))) => {
                if content_type.is_html() {
                    (
                        FetchView { phase: FetchPhase::Downloading, ..self },
                        FetchActionView::SendGet(self.url),
                    )
                } else {
                    self.fail()
                }
            },
            (FetchPhase::Downloading, FetchEventView::BodyReceived(body)) => (
                self.done(),
                FetchActionView::Deliver(parse_spec(body)),
            ),
            _ => self.fail(),
        }
    }
}

impl Fetch {
    /// Begins the fetch of `url`.
    pub fn start(url: String) -> (next: (Fetch, FetchAction))
        ensures
            (next.0@, next.1@) == FetchView::start(url@),
    {
        let probe = url.clone();
        (Fetch { url, phase: FetchPhase::Probing }, FetchAction::SendProbe(probe))
    }

    /// The URL that is being fetched.
    pub fn url(&self) -> (url: &str)
        ensures
            url@ == self@.url,
    {
        self.url.as_str()
    }

    /// Where the fetch stands.
    pub fn phase(&self) -> (phase: FetchPhase)
        ensures
            phase == self@.phase,
    {
        self.phase
    }

    fn fail(self) -> (next: (Fetch, FetchAction))
        ensures
            (next.0@, next.1@) == self@.fail(),
    {
        (Fetch { url: self.url, phase: FetchPhase::Done }, FetchAction::Deliver(OgPreviewRes::new()))
    }

    /// Takes what the network said and says what to do next.
    pub fn step(self, event: FetchEvent) -> (next: (Fetch, FetchAction))
        ensures
            (next.0@, next.1@) == self@.step(event@),
            next.1 matches FetchAction::Deliver(record) ==> record@.wf(),
    {
        match self.phase {
            FetchPhase::Probing => match event {
                FetchEvent::ProbeAnswered(Some(content_type)) => {
                    if content_type.is_html() {
                        let get = self.url.clone();
                        (
                            Fetch { url: self.url, phase: FetchPhase::Downloading },
                            FetchAction::SendGet(get),
                        )
                    } else {
                        self.fail()
                    }
                },
                _ => self.fail(),
            },
            FetchPhase::Downloading => match event {
                FetchEvent::BodyReceived(body) => {
                    let record = parse_body(body.as_slice());
                    (Fetch { url: self.url, phase: FetchPhase::Done }, FetchAction::Deliver(record))
                },
                _ => self.fail(),
            },
            FetchPhase::Done => self.fail(),
        }
    }
}

/// Whether a probe's answer lets the download go ahead.
pub open spec fn says_html(probe: FetchEventView) -> bool {
    probe matches FetchEventView::ProbeAnswered(Some(content_type)) && content_type.is_html()
}

/// The record of a fetch, said outright: the record of the body where the
/// probe said `text/html` and the body arrived, the empty record otherwise.
pub open spec fn outcome(probe: FetchEventView, body: FetchEventView) -> PreviewView {
    match body {
        FetchEventView::BodyReceived(bytes) => if says_html(probe) {
            parse_spec(bytes)
        } else {
            PreviewView::failed()
        },
        _ => PreviewView::failed(),
    }
}

/// The record of a fetch, by running the protocol: the fetch of `url` is
/// started, its probe is answered by `probe`, and if it then asks for the
/// download, that is answered by `body`.
pub open spec fn delivered(url: Seq<char>, probe: FetchEventView, body: FetchEventView)
    -> PreviewView {
    let probed = FetchView::start(url).0.step(probe);
    match probed.1 {
        FetchActionView::Deliver(record) => record,
        _ => match probed.0.step(body).1 {
            FetchActionView::Deliver(record) => record,
            _ => PreviewView::failed(),
        },
    }
}

/// A probe that does not say `text/html` ends the fetch there, wherever the
/// fetch stands: no GET is asked for, and the record delivered is the empty
/// one.
pub proof fn lemma_not_html_ends_fetch(fetch: FetchView, probe: FetchEventView)
    requires
        probe is ProbeAnswered || probe is ProbeFailed,
        !says_html(probe),
    ensures
        fetch.step(probe) == fetch.fail(),
        fetch.step(probe).1 == FetchActionView::Deliver(PreviewView::failed()),
        fetch.step(probe).0.phase == FetchPhase::Done,
{
}

/// A GET is asked for in one case only: the fetch is waiting for its probe and
/// the probe says `text/html`. It goes to the URL that was probed. No step
/// asks for a second probe.
pub proof fn lemma_get_follows_html_probe(fetch: FetchView, event: FetchEventView)
    ensures
        fetch.step(event).1 is SendGet <==> fetch.phase == FetchPhase::Probing && says_html(event),
        fetch.step(event).1 is SendGet ==> fetch.step(event) == (
            FetchView { url: fetch.url, phase: FetchPhase::Downloading },
            FetchActionView::SendGet(fetch.url),
        ),
        !(fetch.step(event).1 is SendProbe),
{
}

/// A body is parsed in one case only: the fetch is waiting for its download.
/// So a record that is ok comes from a body, and the body from a GET that
/// followed a probe.
pub proof fn lemma_ok_follows_download(fetch: FetchView, event: FetchEventView)
    ensures
        fetch.step(event).1 matches FetchActionView::Deliver(record) && record.ok ==> {
            &&& fetch.phase == FetchPhase::Downloading
            &&& event matches FetchEventView::BodyReceived(body) && fetch.step(event).1
                == FetchActionView::Deliver(parse_spec(body))
        },
{
}

/// A fetch is over after two answers at the latest: every step ends it, but
/// for the answer to an HTML probe, which moves it from probing to
/// downloading. No step changes the URL.
pub proof fn lemma_fetch_ends(fetch: FetchView, first: FetchEventView, second: FetchEventView)
    ensures
        fetch.step(first).0.url == fetch.url,
        fetch.step(first).0.phase == (if fetch.phase == FetchPhase::Probing && says_html(first) {
            FetchPhase::Downloading
        } else {
            FetchPhase::Done
        }),
        FetchView::start(fetch.url).0.step(first).0.step(second).0.phase == FetchPhase::Done,
{
}

/// A whole fetch delivers what [`outcome`] says. It opens with the probe;
/// where the probe says `text/html` the GET follows, to the same URL, and its
/// answer ends the fetch; otherwise the probe's answer ends it.
pub proof fn lemma_fetch_runs_to_outcome(url: Seq<char>, probe: FetchEventView, body: FetchEventView)
    ensures
        delivered(url, probe, body) == outcome(probe, body),
        FetchView::start(url).1 == FetchActionView::SendProbe(url),
        says_html(probe) ==> FetchView::start(url).0.step(probe).1 == FetchActionView::SendGet(url),
        !says_html(probe) ==> FetchView::start(url).0.step(probe).1 == FetchActionView::Deliver(
            PreviewView::failed(),
        ),
{
}

/// What a fetch delivers depends on nothing but what the network answers:
/// fetches that are answered alike deliver the same record, whenever they run
/// and whatever they were asked for.
pub proof fn lemma_same_answers_same_record(
    url: Seq<char>,
    other_url: Seq<char>,
    probe: FetchEventView,
    body: FetchEventView,
)
    ensures
        delivered(url, probe, body) == delivered(other_url, probe, body),
        delivered(url, probe, body).same_content(delivered(other_url, probe, body)),
{
    lemma_fetch_runs_to_outcome(url, probe, body);
    lemma_fetch_runs_to_outcome(other_url, probe, body);
}

/// A fetch never delivers a record that claims to come from the cache, and
/// what it delivers meets the data-model invariant.
pub proof fn lemma_fetched_is_fresh(fetch: FetchView, event: FetchEventView)
    ensures
        fetch.step(event).1 matches FetchActionView::Deliver(record) ==> {
            &&& record.wf()
            &&& record.cached != Some(true)
            &&& record.ok <==> record.cached == Some(false)
        },
{
    if let FetchEventView::BodyReceived(body) = event {
        lemma_parsed_wf(body);
    }
}

} // verus!
