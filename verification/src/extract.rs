//! From a page's bytes to its preview record.

use crate::document::{
    attrs_where, document_nodes, find_attrs, find_text, parsed_nodes, read_document, text_where,
    NodeView, MAX_DOCUMENT_LEN,
};
use crate::record::{clone_text, OgPreviewRes, PreviewView};
use select::document::Document;
use vstd::prelude::*;
use vstd::utf8::valid_utf8;

verus! {

/// What a document offers for each field of a preview: the matching tags in
/// document order, each reduced to the text that a preview would take from it.
/// A tag without a `content` attribute is a `None`.
#[derive(Debug, Clone)]
pub struct MetaTags {
    /// `content` of each tag with `property="og:title"`.
    pub og_title: Vec<Option<String>>,
    /// Text of each `title` element.
    pub title: Vec<String>,
    /// `content` of each tag with `property="og:description"`.
    pub og_description: Vec<Option<String>>,
    /// `content` of each tag with `name="description"`.
    pub description: Vec<Option<String>>,
    /// `content` of each tag with `property="og:image"`.
    pub og_image: Vec<Option<String>>,
}

/// The value of a [`MetaTags`].
pub struct MetaTagsView {
    pub og_title: Seq<Option<Seq<char>>>,
    pub title: Seq<Seq<char>>,
    pub og_description: Seq<Option<Seq<char>>>,
    pub description: Seq<Option<Seq<char>>>,
    pub og_image: Seq<Option<Seq<char>>>,
}

impl View for MetaTags {
    type V = MetaTagsView;

    open spec fn view(&self) -> MetaTagsView {
        MetaTagsView {
            og_title: self.og_title.deep_view(),
            title: self.title.deep_view(),
            og_description: self.og_description.deep_view(),
            description: self.description.deep_view(),
            og_image: self.og_image.deep_view(),
        }
    }
}

/// The tags of a document.
pub open spec fn tags_of(nodes: Seq<NodeView>) -> MetaTagsView {
    MetaTagsView {
        og_title: attrs_where(nodes, "property"@, "og:title"@, "content"@),
        title: text_where(nodes, "title"@),
        og_description: attrs_where(nodes, "property"@, "og:description"@, "content"@),
        description: attrs_where(nodes, "name"@, "description"@, "content"@),
        og_image: attrs_where(nodes, "property"@, "og:image"@, "content"@),
    }
}

/// The title: what the first Open Graph title tag says, and only where the
/// document has no such tag, the first `title` element.
pub open spec fn title_of(tags: MetaTagsView) -> Option<Seq<char>> {
    if tags.og_title.len() > 0 {
        tags.og_title[0]
    } else if tags.title.len() > 0 {
        Some(tags.title[0])
    } else {
        None
    }
}

/// The description: what the first Open Graph description tag says, and only
/// where the document has no such tag, the first plain description tag.
pub open spec fn description_of(tags: MetaTagsView) -> Option<Seq<char>> {
    if tags.og_description.len() > 0 {
        tags.og_description[0]
    } else if tags.description.len() > 0 {
        tags.description[0]
    } else {
        None
    }
}

/// The primary image: what the first Open Graph image tag says.
pub open spec fn image_of(tags: MetaTagsView) -> Option<Seq<char>> {
    if tags.og_image.len() > 0 {
        tags.og_image[0]
    } else {
        None
    }
}

/// The image list: what every Open Graph image tag says, in document order,
/// repeats included; tags that say nothing are passed over.
pub open spec fn images_of(tags: MetaTagsView) -> Seq<Seq<char>> {
    present(tags.og_image)
}

/// The texts that are there, in order.
pub open spec fn present(texts: Seq<Option<Seq<char>>>) -> Seq<Seq<char>> {
    texts.filter_map(|c: Option<Seq<char>>| c)
}

/// The record of a document that was parsed.
pub open spec fn preview_of(tags: MetaTagsView) -> PreviewView {
    PreviewView {
        ok: true,
        title: title_of(tags),
        image: image_of(tags),
        images: images_of(tags),
        description: description_of(tags),
        cached: Some(false),
    }
}

/// Whether a body can be parsed: it is UTF-8 and not longer than the parser
/// takes.
pub open spec fn parseable(body: Seq<u8>) -> bool {
    body.len() <= MAX_DOCUMENT_LEN && valid_utf8(body)
}

/// The record of a response body.
pub open spec fn parse_spec(body: Seq<u8>) -> PreviewView {
    if parseable(body) {
        preview_of(tags_of(parsed_nodes(body)))
    } else {
        PreviewView::failed()
    }
}

/// Where the first of a run of tags says something, the values that are
/// present start with it.
pub proof fn lemma_first_present(s: Seq<Option<Seq<char>>>)
    requires
        s.len() > 0,
        s[0] is Some,
    ensures
        present(s).len() > 0,
        present(s)[0] == s[0]->0,
    decreases s.len(),
{
    if s.len() > 1 {
        lemma_first_present(s.drop_last());
    } else {
        assert(present(s.drop_last()) =~= Seq::<Seq<char>>::empty());
    }
}

/// Every record drawn from tags meets the data-model invariant.
pub proof fn lemma_preview_wf(tags: MetaTagsView)
    ensures
        preview_of(tags).wf(),
{
    if tags.og_image.len() > 0 && tags.og_image[0] is Some {
        lemma_first_present(tags.og_image);
    }
}

/// Every record of a body meets the data-model invariant, is ok exactly when
/// the body can be parsed, and is fresh when it is ok.
pub proof fn lemma_parsed_wf(body: Seq<u8>)
    ensures
        parse_spec(body).wf(),
        parse_spec(body).ok <==> parseable(body),
        parse_spec(body).cached == (if parseable(body) {
            Some(false)
        } else {
            None
        }),
{
    lemma_preview_wf(tags_of(parsed_nodes(body)));
}

/// Where every Open Graph image tag says something, the image list is what
/// they say, one for one and in document order, and the primary image is its
/// head.
pub proof fn lemma_images_in_document_order(tags: MetaTagsView)
    requires
        forall|k: int| 0 <= k < tags.og_image.len() ==> (#[trigger] tags.og_image[k]) is Some,
    ensures
        images_of(tags).len() == tags.og_image.len(),
        forall|k: int|
            0 <= k < tags.og_image.len() ==> Some(#[trigger] images_of(tags)[k])
                == tags.og_image[k],
        tags.og_image.len() > 0 ==> image_of(tags) == Some(images_of(tags)[0]),
    decreases tags.og_image.len(),
{
    if tags.og_image.len() > 0 {
        let init = MetaTagsView { og_image: tags.og_image.drop_last(), ..tags };
        lemma_images_in_document_order(init);
    }
}

/// The first node that a filter keeps is the first that meets the condition.
pub proof fn lemma_filter_first<A>(s: Seq<A>, keep: spec_fn(A) -> bool, i: int)
    requires
        0 <= i < s.len(),
        keep(s[i]),
        forall|j: int| 0 <= j < i ==> !keep(#[trigger] s[j]),
    ensures
        s.filter(keep).len() > 0,
        s.filter(keep)[0] == s[i],
    decreases s.len(),
{
    reveal(Seq::filter);
    if i < s.len() - 1 {
        lemma_filter_first(s.drop_last(), keep, i);
    } else {
        lemma_filter_nothing(s.drop_last(), keep);
    }
}

/// A filter keeps nothing where nothing meets the condition.
pub proof fn lemma_filter_nothing<A>(s: Seq<A>, keep: spec_fn(A) -> bool)
    requires
        forall|j: int| 0 <= j < s.len() ==> !keep(#[trigger] s[j]),
    ensures
        s.filter(keep).len() == 0,
    decreases s.len(),
{
    reveal(Seq::filter);
    if s.len() > 0 {
        lemma_filter_nothing(s.drop_last(), keep);
    }
}

/// An Open Graph title takes precedence: where node `i` is the first tag with
/// `property="og:title"`, the title is that tag's `content`, whatever the
/// document's `title` element says.
pub proof fn lemma_og_title_wins(nodes: Seq<NodeView>, i: int)
    requires
        0 <= i < nodes.len(),
        nodes[i].is_tag("property"@, "og:title"@),
        forall|j: int| 0 <= j < i ==> !(#[trigger] nodes[j]).is_tag("property"@, "og:title"@),
    ensures
        title_of(tags_of(nodes)) == nodes[i].attrs.get("content"@),
{
    lemma_filter_first(nodes, |n: NodeView| n.is_tag("property"@, "og:title"@), i);
}

/// Without an Open Graph title the `title` element is used: where no tag has
/// `property="og:title"` and node `i` is the first element called `title`,
/// the title is that element's text.
pub proof fn lemma_title_element_is_fallback(nodes: Seq<NodeView>, i: int)
    requires
        0 <= i < nodes.len(),
        nodes[i].is_named("title"@),
        forall|j: int| 0 <= j < i ==> !(#[trigger] nodes[j]).is_named("title"@),
        forall|j: int|
            0 <= j < nodes.len() ==> !(#[trigger] nodes[j]).is_tag("property"@, "og:title"@),
    ensures
        title_of(tags_of(nodes)) == Some(nodes[i].text),
{
    lemma_filter_nothing(nodes, |n: NodeView| n.is_tag("property"@, "og:title"@));
    lemma_filter_first(nodes, |n: NodeView| n.is_named("title"@), i);
}

fn first_text(tags: &Vec<Option<String>>) -> (r: Option<String>)
    ensures
        r.deep_view() == (if tags.deep_view().len() > 0 {
            tags.deep_view()[0]
        } else {
            None
        }),
{
    if tags.len() > 0 {
        clone_text(&tags[0])
    } else {
        None
    }
}

fn present_texts(tags: &Vec<Option<String>>) -> (r: Vec<String>)
    ensures
        r.deep_view() == present(tags.deep_view()),
{
    let mut out: Vec<String> = Vec::new();
    let mut i: usize = 0;
    while i < tags.len()
        invariant
            i <= tags.len(),
            out.deep_view() == present(tags.deep_view().take(i as int)),
        decreases tags.len() - i,
    {
        let ghost before = out.deep_view();
        let ghost upto = tags.deep_view().take(i as int + 1);
        assert(upto.drop_last() =~= tags.deep_view().take(i as int));
        assert(present(upto) == match upto.last() {
            Some(c) => before + seq![c],
            None => before,
        });
        match &tags[i] {
            Some(s) => {
                out.push(s.clone());
            },
            None => {},
        }
        i = i + 1;
    }
    assert(tags.deep_view().take(i as int) =~= tags.deep_view());
    out
}

impl OgPreviewRes {
    /// The record that a parsed document gives, by fixed precedence: Open
    /// Graph tags first, plain HTML second, each field on its own.
    pub fn from_tags(tags: &MetaTags) -> (res: OgPreviewRes)
        ensures
            res@ == preview_of(tags@),
            res@.wf(),
    {
        let title = if tags.og_title.len() > 0 {
            clone_text(&tags.og_title[0])
        } else if tags.title.len() > 0 {
            Some(tags.title[0].clone())
        } else {
            None
        };
        let description = if tags.og_description.len() > 0 {
            clone_text(&tags.og_description[0])
        } else {
            first_text(&tags.description)
        };
        let image = first_text(&tags.og_image);
        let images = present_texts(&tags.og_image);
        proof {
            lemma_preview_wf(tags@);
        }
        OgPreviewRes { ok: true, title, image, images, description, cached: Some(false) }
    }
}

/// Reads off a document the tags that a preview is drawn from.
fn collect_tags(doc: &Document) -> (tags: MetaTags)
    ensures
        tags@ == tags_of(document_nodes(*doc)),
{
    MetaTags {
        og_title: find_attrs(doc, "property", "og:title", "content"),
        title: find_text(doc, "title"),
        og_description: find_attrs(doc, "property", "og:description", "content"),
        description: find_attrs(doc, "name", "description", "content"),
        og_image: find_attrs(doc, "property", "og:image", "content"),
    }
}

/// The preview record of a response body. A body that cannot be parsed gives
/// the empty record.
pub fn parse_body(body: &[u8]) -> (res: OgPreviewRes)
    ensures
        res@ == parse_spec(body@),
        res@.wf(),
        res.ok <==> parseable(body@),
{
    if body.len() > MAX_DOCUMENT_LEN {
        return OgPreviewRes::new();
    }
    match read_document(body) {
        Some(doc) => {
            let tags = collect_tags(&doc);
            OgPreviewRes::from_tags(&tags)
        },
        None => OgPreviewRes::new(),
    }
}

} // verus!
