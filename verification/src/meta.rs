//! Turning a fetched HTML document into a metadata record: the trusted
//! boundary to the HTML parser, and the verified extraction of the Open
//! Graph fields and of the ordered meta-tag list.

use vstd::prelude::*;

verus! {

/// The attribute values read off one `<meta>` element, in document order:
/// `property`, `name` and `content`, each absent when the element lacks it.
pub type MetaAttrs = (Option<Seq<char>>, Option<Seq<char>>, Option<Seq<char>>);

/// The `<meta>` elements that the HTML parser finds in a document, in
/// document order, each reduced to its `property`, `name` and `content`
/// attributes. The parse of a fixed text is deterministic, so this is a
/// function of the document alone.
pub uninterp spec fn meta_elements_of(html: Seq<char>) -> Seq<MetaAttrs>;

/// The attribute values read off one `<meta>` element.
pub struct RawMeta {
    pub property: Option<String>,
    pub name: Option<String>,
    pub content: Option<String>,
}

impl DeepView for RawMeta {
    type V = MetaAttrs;

    open spec fn deep_view(&self) -> MetaAttrs {
        (self.property.deep_view(), self.name.deep_view(), self.content.deep_view())
    }
}

/// Relies on scraper's `Html::parse_document`, `Selector::parse("meta")`,
/// `Html::select` and `Element::attr`: yields every `<meta>` element of the
/// document in document order, each reduced to its `property`, `name` and
/// `content` attribute values.
#[verifier::external_body]
fn scan_meta_elements(html: &str) -> (r: Vec<RawMeta>)
    ensures
        r.deep_view() == meta_elements_of(html@),
{
    let document = scraper::Html::parse_document(html);
    let selector = scraper::Selector::parse("meta").unwrap();
    document
        .select(&selector)
        .map(|e| RawMeta {
            property: e.value().attr("property").map(|v| v.to_string()),
            name: e.value().attr("name").map(|v| v.to_string()),
            content: e.value().attr("content").map(|v| v.to_string()),
        })
        .collect()
}

/// An element joins the tag list when it carries a `property` or a `name`.
pub open spec fn has_tag_name(e: MetaAttrs) -> bool {
    e.0 is Some || e.1 is Some
}

/// The listed tag name: `property` when present, otherwise `name`.
pub open spec fn tag_name_of(e: MetaAttrs) -> Seq<char> {
    if e.0 is Some {
        e.0->0
    } else {
        e.1->0
    }
}

/// The listed content: the `content` attribute, or empty when absent.
pub open spec fn content_of(e: MetaAttrs) -> Seq<char> {
    if e.2 is Some {
        e.2->0
    } else {
        Seq::empty()
    }
}

/// The ordered `(tag name, content)` list of a document's `<meta>` elements:
/// document order kept, duplicates kept, elements with neither `property`
/// nor `name` skipped.
pub open spec fn meta_pairs(elems: Seq<MetaAttrs>) -> Seq<(Seq<char>, Seq<char>)>
    decreases elems.len(),
{
    if elems.len() == 0 {
        Seq::empty()
    } else {
        let rest = meta_pairs(elems.drop_last());
        if has_tag_name(elems.last()) {
            rest.push((tag_name_of(elems.last()), content_of(elems.last())))
        } else {
            rest
        }
    }
}

/// The content of the first element whose `property` equals `prop`, or empty
/// when no element matches.
pub open spec fn first_property_content(elems: Seq<MetaAttrs>, prop: Seq<char>) -> Seq<char>
    decreases elems.len(),
{
    if elems.len() == 0 {
        Seq::empty()
    } else if elems.first().0 == Some(prop) {
        content_of(elems.first())
    } else {
        first_property_content(elems.drop_first(), prop)
    }
}

/// Mathematical model of an [`OGPInfo`] record.
pub ghost struct OGPModel {
    pub title: Seq<char>,
    pub description: Seq<char>,
    pub image: Seq<char>,
    pub metadata: Seq<(Seq<char>, Seq<char>)>,
}

/// The record extracted from a document's `<meta>` elements: the first
/// `og:title`, `og:description` and `og:image` contents (empty when absent)
/// and the full ordered tag list.
pub open spec fn extract_spec(elems: Seq<MetaAttrs>) -> OGPModel {
    OGPModel {
        title: first_property_content(elems, "og:title"@),
        description: first_property_content(elems, "og:description"@),
        image: first_property_content(elems, "og:image"@),
        metadata: meta_pairs(elems),
    }
}

/// The social-preview metadata of one fetched document, immutable once
/// constructed.
pub struct OGPInfo {
    pub title: String,
    pub description: String,
    pub image: String,
    pub metadata: Vec<(String, String)>,
}

impl View for OGPInfo {
    type V = OGPModel;

    open spec fn view(&self) -> OGPModel {
        OGPModel {
            title: self.title@,
            description: self.description@,
            image: self.image@,
            metadata: self.metadata.deep_view(),
        }
    }
}

impl OGPInfo {
    /// An image fetch is attempted exactly when the record names an image.
    pub fn wants_image(&self) -> (r: bool)
        ensures
            r == (self@.image.len() != 0),
    {
        let empty = String::new();
        let is_empty = self.image == empty;
        proof {
            if self.image@.len() == 0 {
                assert(self.image@ =~= empty@);
            }
        }
        !is_empty
    }
}

/// The window of the tag list that a display with `rows` rows shows when
/// scrolled to `offset`: its start index and its length.
pub open spec fn visible_range(len: int, offset: int, rows: int) -> (int, int) {
    let start = if offset < len {
        offset
    } else {
        len
    };
    let count = if rows < len - start {
        rows
    } else {
        len - start
    };
    (start, count)
}

impl OGPInfo {
    /// The tag rows on screen: the tag list from the scroll offset on, at
    /// most `rows` of them.
    pub fn visible_tags(&self, offset: usize, rows: usize) -> (r: Vec<(String, String)>)
        ensures
            ({
                let (start, count) = visible_range(
                    self@.metadata.len() as int,
                    offset as int,
                    rows as int,
                );
                r.deep_view() == self@.metadata.subrange(start, start + count)
            }),
    {
        let len = self.metadata.len();
        let start = if offset < len {
            offset
        } else {
            len
        };
        let remaining = len - start;
        let count = if rows < remaining {
            rows
        } else {
            remaining
        };
        let ghost gstart = start as int;
        let mut out: Vec<(String, String)> = Vec::new();
        let mut i: usize = 0;
        while i < count
            invariant
                0 <= gstart,
                gstart == start as int,
                gstart + count as int <= self.metadata@.len(),
                self.metadata@.len() == len as int,
                0 <= i <= count,
                out@.len() == i as int,
                forall|j: int|
                    0 <= j < i ==> #[trigger] out@[j].deep_view() == self.metadata@[
                        gstart + j
                    ].deep_view(),
            decreases count - i,
        {
            let pair = &self.metadata[start + i];
            out.push((pair.0.clone(), pair.1.clone()));
            i = i + 1;
        }
        proof {
            let dv = self.metadata.deep_view();
            let shown = dv.subrange(gstart, gstart + count);
            assert(out.deep_view().len() == count as int);
            assert forall|j: int| 0 <= j < count implies out.deep_view()[j] == shown[j] by {
                assert(out@[j].deep_view() == self.metadata@[gstart + j].deep_view());
            }
            assert(out.deep_view() =~= shown);
        }
        out
    }

    /// A fresh copy of the record, equal under the model.
    pub fn duplicate(&self) -> (r: OGPInfo)
        ensures
            r@ == self@,
    {
        let metadata = self.visible_tags(0, self.metadata.len());
        proof {
            assert(self@.metadata.subrange(0, self@.metadata.len() as int) =~= self@.metadata);
        }
        OGPInfo {
            title: self.title.clone(),
            description: self.description.clone(),
            image: self.image.clone(),
            metadata,
        }
    }
}

/// Skipping matchless elements keeps the first `property` match: scanning
/// past a prefix with no match leaves the extracted content unchanged.
proof fn lemma_first_property_content_skip(elems: Seq<MetaAttrs>, prop: Seq<char>, i: int)
    requires
        0 <= i <= elems.len(),
        forall|j: int| 0 <= j < i ==> #[trigger] elems[j].0 != Some(prop),
    ensures
        first_property_content(elems, prop) == first_property_content(elems.skip(i), prop),
    decreases i,
{
    if i > 0 {
        lemma_first_property_content_skip(elems, prop, i - 1);
        let s = elems.skip(i - 1);
        assert(s.first() == elems[i - 1]);
        assert(s.drop_first() =~= elems.skip(i));
    } else {
        assert(elems.skip(0) =~= elems);
    }
}

/// The content of the first element whose `property` equals `prop`, or empty
/// when no element matches.
fn find_first_content(elems: &Vec<RawMeta>, prop: &str) -> (r: String)
    ensures
        r@ == first_property_content(elems.deep_view(), prop@),
{
    let ghost all = elems.deep_view();
    let target: String = prop.to_owned();
    let mut i: usize = 0;
    while i < elems.len()
        invariant
            target@ == prop@,
            0 <= i <= elems.len(),
            all == elems.deep_view(),
            forall|j: int| 0 <= j < i ==> #[trigger] all[j].0 != Some(prop@),
        decreases elems.len() - i,
    {
        let e = &elems[i];
        let matched = match &e.property {
            Some(p) => *p == target,
            None => false,
        };
        if matched {
            let c = match &e.content {
                Some(cs) => cs.clone(),
                None => String::new(),
            };
            proof {
                lemma_first_property_content_skip(all, prop@, i as int);
                let s = all.skip(i as int);
                assert(s.first() == all[i as int]);
                assert(c@ == content_of(all[i as int]));
            }
            return c;
        }
        i = i + 1;
    }
    proof {
        lemma_first_property_content_skip(all, prop@, all.len() as int);
        assert(all.skip(all.len() as int) =~= Seq::<MetaAttrs>::empty());
    }
    String::new()
}

/// The ordered `(tag name, content)` list, built as [`meta_pairs`] states.
fn collect_pairs(elems: &Vec<RawMeta>) -> (r: Vec<(String, String)>)
    ensures
        r.deep_view() == meta_pairs(elems.deep_view()),
{
    let ghost all = elems.deep_view();
    let mut out: Vec<(String, String)> = Vec::new();
    let mut i: usize = 0;
    while i < elems.len()
        invariant
            0 <= i <= elems.len(),
            all == elems.deep_view(),
            out.deep_view() == meta_pairs(all.take(i as int)),
        decreases elems.len() - i,
    {
        let ghost before = out.deep_view();
        let e = &elems[i];
        let tag: Option<String> = match (&e.property, &e.name) {
            (Some(p), _) => Some(p.clone()),
            (None, Some(n)) => Some(n.clone()),
            (None, None) => None,
        };
        if let Some(tag_name) = tag {
            let content = match &e.content {
                Some(c) => c.clone(),
                None => String::new(),
            };
            out.push((tag_name, content));
            proof {
                assert(out.deep_view() =~= before.push(
                    (tag_name_of(all[i as int]), content_of(all[i as int])),
                ));
            }
        }
        proof {
            let next = all.take(i as int + 1);
            assert(next.drop_last() =~= all.take(i as int));
            assert(next.last() == all[i as int]);
        }
        i = i + 1;
    }
    proof {
        assert(all.take(all.len() as int) =~= all);
    }
    out
}

/// Builds the metadata record that a list of scanned `<meta>` elements
/// yields: the first `og:` contents and the full ordered tag list.
pub fn build_ogp_info(elems: &Vec<RawMeta>) -> (r: OGPInfo)
    ensures
        r@ == extract_spec(elems.deep_view()),
{
    let title = find_first_content(elems, "og:title");
    let description = find_first_content(elems, "og:description");
    let image = find_first_content(elems, "og:image");
    let metadata = collect_pairs(elems);
    OGPInfo { title, description, image, metadata }
}

/// Extracts the metadata record of a fetched HTML document: its `<meta>`
/// elements are scanned by the trusted parser boundary, everything after
/// that is verified against [`extract_spec`].
pub fn extract_ogp_info(html: &str) -> (r: OGPInfo)
    ensures
        r@ == extract_spec(meta_elements_of(html@)),
{
    let elems = scan_meta_elements(html);
    build_ogp_info(&elems)
}

} // verus!
