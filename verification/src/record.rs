//! The preview record and its mathematical view.

use vstd::prelude::*;

verus! {

/// What is known about one URL.
#[derive(Debug, Clone)]
pub struct OgPreviewRes {
    /// True iff the fetch succeeded and the target was HTML.
    pub ok: bool,
    pub title: Option<String>,
    /// The primary image URL.
    pub image: Option<String>,
    /// Every image URL found, in document order.
    pub images: Vec<String>,
    pub description: Option<String>,
    /// `Some(false)` when freshly computed, `Some(true)` when served from the
    /// cache, `None` when nothing was parsed.
    pub cached: Option<bool>,
}

/// The value of an [`OgPreviewRes`], with strings as sequences of characters.
pub struct PreviewView {
    pub ok: bool,
    pub title: Option<Seq<char>>,
    pub image: Option<Seq<char>>,
    pub images: Seq<Seq<char>>,
    pub description: Option<Seq<char>>,
    pub cached: Option<bool>,
}

impl PreviewView {
    /// The record of a fetch that found nothing: not ok, every field empty,
    /// no provenance.
    pub open spec fn failed() -> PreviewView {
        PreviewView {
            ok: false,
            title: None,
            image: None,
            images: Seq::empty(),
            description: None,
            cached: None,
        }
    }

    /// The same record as it is served from the cache.
    pub open spec fn stored(self) -> PreviewView {
        PreviewView { cached: Some(true), ..self }
    }

    /// The data-model invariant: a record that is not ok carries no content, a
    /// record that is ok says where it came from, and a primary image is the
    /// head of the image list.
    pub open spec fn wf(self) -> bool {
        &&& !self.ok ==> {
            &&& self.title is None
            &&& self.description is None
            &&& self.image is None
            &&& self.images.len() == 0
        }
        &&& self.ok ==> self.cached is Some
        &&& self.image matches Some(first) ==> self.images.len() > 0 && self.images[0] == first
    }

    /// Equality of everything but the provenance flag.
    pub open spec fn same_content(self, other: PreviewView) -> bool {
        &&& self.ok == other.ok
        &&& self.title == other.title
        &&& self.image == other.image
        &&& self.images == other.images
        &&& self.description == other.description
    }
}

impl View for OgPreviewRes {
    type V = PreviewView;

    open spec fn view(&self) -> PreviewView {
        PreviewView {
            ok: self.ok,
            title: self.title.deep_view(),
            image: self.image.deep_view(),
            images: self.images.deep_view(),
            description: self.description.deep_view(),
            cached: self.cached,
        }
    }
}

impl OgPreviewRes {
    /// The empty record: the answer to every request that could not be served.
    pub fn new() -> (res: OgPreviewRes)
        ensures
            res@ == PreviewView::failed(),
            res@.wf(),
    {
        let res = OgPreviewRes {
            ok: false,
            title: None,
            image: None,
            images: Vec::new(),
            description: None,
            cached: None,
        };
        assert(res.images.deep_view() =~= Seq::<Seq<char>>::empty());
        res
    }

    /// A copy of the record.
    pub fn duplicate(&self) -> (res: OgPreviewRes)
        ensures
            res@ == self@,
    {
        let images = self.images.clone();
        OgPreviewRes {
            ok: self.ok,
            title: clone_text(&self.title),
            image: clone_text(&self.image),
            images,
            description: clone_text(&self.description),
            cached: self.cached,
        }
    }

    /// The record as the cache keeps it: the same content, marked as served
    /// from the cache.
    pub fn mark_cached(self) -> (res: OgPreviewRes)
        ensures
            res@ == self@.stored(),
    {
        let mut res = self;
        res.cached = Some(true);
        res
    }
}

/// A copy of a text that may be absent.
pub fn clone_text(text: &Option<String>) -> (r: Option<String>)
    ensures
        r.deep_view() == text.deep_view(),
{
    match text {
        Some(s) => Some(s.clone()),
        None => None,
    }
}

} // verus!
