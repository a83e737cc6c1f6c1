//! Reading HTML pages with `scraper`: what the routes take from a page is
//! the text of elements a CSS selector picks and their attributes.
//!
//! Parsing and selecting are `scraper`'s; their results are named below
//! and not restated.
use crate::feed::opt_view;
use crate::text::views;
use scraper::{ElementRef, Html, Selector};
use vstd::prelude::*;

verus! {

/// The text (all text nodes, in document order) of the first element of
/// the page that `selector` picks, as `scraper` finds it; nothing where
/// none matches or the selector does not parse.
pub uninterp spec fn first_text(html: Seq<char>, selector: Seq<char>) -> Option<Seq<char>>;

/// `scraper`: the text of the first element `selector` picks (see
/// [`first_text`]).
#[verifier::external_body]
pub(crate) fn select_first_text(html: &str, selector: &str) -> (r: Option<String>)
    ensures
        opt_view(r) == first_text(html@, selector@),
{
    let doc = Html::parse_document(html);
    let sel = Selector::parse(selector).ok()?;
    doc.select(&sel).next().map(|e| e.text().collect::<String>())
}

/// What the page says of each element `selector` picks, in document
/// order: its attribute `attr`, and for each selector of `subs` the text of
/// the first element inside it that the selector picks; nothing where the
/// selector does not parse.
pub uninterp spec fn picked(
    html: Seq<char>,
    selector: Seq<char>,
    attr: Seq<char>,
    subs: Seq<Seq<char>>,
) -> Seq<(Option<Seq<char>>, Seq<Option<Seq<char>>>)>;

/// An element as a route reads it: one attribute and the texts found by
/// the sub-selectors.
pub struct Picked {
    pub attr: Option<String>,
    pub texts: Vec<Option<String>>,
}

/// The view of a [`Picked`].
pub open spec fn picked_view(p: Picked) -> (Option<Seq<char>>, Seq<Option<Seq<char>>>) {
    (opt_view(p.attr), p.texts@.map_values(|t: Option<String>| opt_view(t)))
}

/// `scraper`: the elements `selector` picks, read as [`picked`] names it.
#[verifier::external_body]
pub(crate) fn select_picked(html: &str, selector: &str, attr: &str, subs: &[&str]) -> (r: Vec<Picked>)
    ensures
        r@.map_values(|p: Picked| picked_view(p)) == picked(html@, selector@, attr@, views_str(subs@)),
{
    let doc = Html::parse_document(html);
    let subs: Vec<Option<Selector>> = subs.iter().map(|s| Selector::parse(s).ok()).collect();
    let Ok(sel) = Selector::parse(selector) else { return Vec::new() };
    doc.select(&sel).map(|e| Picked {
        attr: e.value().attr(attr).map(String::from),
        texts: subs.iter().map(|s| s.as_ref().and_then(|s| e.select(s).next()).map(|x| x.text().collect())).collect(),
    }).collect()
}

/// The first text node inside the first element of the page that
/// `selector` picks, as `scraper` finds it; nothing where no element
/// matches, the element holds no text, or the selector does not parse.
pub uninterp spec fn first_text_node(html: Seq<char>, selector: Seq<char>) -> Option<Seq<char>>;

/// `scraper`: the first text node of the first element `selector` picks
/// (see [`first_text_node`]).
#[verifier::external_body]
pub(crate) fn select_first_text_node(html: &str, selector: &str) -> (r: Option<String>)
    ensures
        opt_view(r) == first_text_node(html@, selector@),
{
    let doc = Html::parse_document(html);
    let sel = Selector::parse(selector).ok()?;
    doc.select(&sel).next().and_then(|e| e.text().next()).map(String::from)
}

/// The HTML of the first element of the page that `selector` picks, the
/// element itself included, as `scraper` writes it; nothing where none
/// matches or the selector does not parse.
pub uninterp spec fn first_outer_html(html: Seq<char>, selector: Seq<char>) -> Option<Seq<char>>;

/// `scraper`: the HTML of the first element `selector` picks (see
/// [`first_outer_html`]).
#[verifier::external_body]
pub(crate) fn select_first_outer_html(html: &str, selector: &str) -> (r: Option<String>)
    ensures
        opt_view(r) == first_outer_html(html@, selector@),
{
    let doc = Html::parse_document(html);
    let sel = Selector::parse(selector).ok()?;
    doc.select(&sel).next().map(|e| e.html())
}

/// The inner HTML of the first element of the page that `selector` picks,
/// as `scraper` writes it; nothing where none matches or the selector does
/// not parse.
pub uninterp spec fn first_inner_html(html: Seq<char>, selector: Seq<char>) -> Option<Seq<char>>;

/// `scraper`: the inner HTML of the first element `selector` picks (see
/// [`first_inner_html`]).
#[verifier::external_body]
pub(crate) fn select_first_inner_html(html: &str, selector: &str) -> (r: Option<String>)
    ensures
        opt_view(r) == first_inner_html(html@, selector@),
{
    let doc = Html::parse_document(html);
    let sel = Selector::parse(selector).ok()?;
    doc.select(&sel).next().map(|e| e.inner_html())
}

/// A child node of an element, as a route reads it: an element (its tag,
/// whether it carries each of two classes, and its inner HTML), a text
/// node, or anything else.
pub enum ChildNode {
    Element { tag: String, has_first: bool, has_second: bool, inner_html: String },
    Text(String),
    Other,
}

/// The contents of a [`ChildNode`].
pub enum ChildView {
    Element(Seq<char>, bool, bool, Seq<char>),
    Text(Seq<char>),
    Other,
}

/// The view of a [`ChildNode`].
pub open spec fn child_view(c: ChildNode) -> ChildView {
    match c {
        ChildNode::Element { tag, has_first, has_second, inner_html } => ChildView::Element(
            tag@,
            has_first,
            has_second,
            inner_html@,
        ),
        ChildNode::Text(t) => ChildView::Text(t@),
        ChildNode::Other => ChildView::Other,
    }
}

/// The child nodes, in order, of the first element of the page that
/// `selector` picks, each element child with whether it carries the
/// (case-sensitive) classes `first` and `second`; nothing where no element
/// matches or the selector does not parse.
pub uninterp spec fn children_of_first(
    html: Seq<char>,
    selector: Seq<char>,
    first: Seq<char>,
    second: Seq<char>,
) -> Option<Seq<ChildView>>;

/// `scraper`: the child nodes of the first element `selector` picks (see
/// [`children_of_first`]).
#[verifier::external_body]
pub(crate) fn select_children(html: &str, selector: &str, first: &str, second: &str) -> (r: Option<Vec<ChildNode>>)
    ensures
        match r {
            Some(v) => children_of_first(html@, selector@, first@, second@) == Some(
                v@.map_values(|c: ChildNode| child_view(c)),
            ),
            None => children_of_first(html@, selector@, first@, second@) is None,
        },
{
    let doc = Html::parse_document(html);
    let sel = Selector::parse(selector).ok()?;
    let cs = scraper::CaseSensitivity::CaseSensitive;
    Some(doc.select(&sel).next()?.children().map(|n| match (ElementRef::wrap(n), n.value().as_text()) {
        (Some(e), _) => ChildNode::Element { tag: e.value().name().to_string(), has_first: e.value().has_class(first, cs),
            has_second: e.value().has_class(second, cs), inner_html: e.inner_html() },
        (None, Some(t)) => ChildNode::Text(t.text.to_string()),
        (None, None) => ChildNode::Other,
    }).collect())
}

/// For each element `selector` picks, in document order: for each selector
/// of `subs`, the text of the first element inside it that the selector
/// picks; nothing where no element matches or the selector does not parse.
pub uninterp spec fn sub_texts(
    html: Seq<char>,
    selector: Seq<char>,
    subs: Seq<Seq<char>>,
) -> Seq<Seq<Option<Seq<char>>>>;

/// For each element `selector` picks, in document order: for each pair of
/// `pairs`, the attribute (second) of the first element inside it that the
/// selector (first) picks; nothing where there is none.
pub uninterp spec fn sub_attrs(
    html: Seq<char>,
    selector: Seq<char>,
    pairs: Seq<(Seq<char>, Seq<char>)>,
) -> Seq<Seq<Option<Seq<char>>>>;

/// What the page says of each element `selector` picks: its texts (see
/// [`sub_texts`]) beside its attributes (see [`sub_attrs`]).
pub open spec fn fields(
    html: Seq<char>,
    selector: Seq<char>,
    texts: Seq<Seq<char>>,
    attrs: Seq<(Seq<char>, Seq<char>)>,
) -> Seq<(Seq<Option<Seq<char>>>, Seq<Option<Seq<char>>>)> {
    let t = sub_texts(html, selector, texts);
    let a = sub_attrs(html, selector, attrs);
    let n = if t.len() < a.len() { t.len() } else { a.len() };
    Seq::new(n, |i: int| (t[i], a[i]))
}

/// An element as a route reads it: texts and attributes of elements
/// inside it.
#[derive(Debug)]
pub struct Fields {
    pub texts: Vec<Option<String>>,
    pub attrs: Vec<Option<String>>,
}

/// The views of optional texts.
pub open spec fn opt_seq(v: Seq<Option<String>>) -> Seq<Option<Seq<char>>> {
    v.map_values(|t: Option<String>| opt_view(t))
}

/// The view of a [`Fields`].
pub open spec fn fields_view(f: Fields) -> (Seq<Option<Seq<char>>>, Seq<Option<Seq<char>>>) {
    (opt_seq(f.texts@), opt_seq(f.attrs@))
}

/// The views of selector/attribute pairs.
pub open spec fn attr_views(v: Seq<(&str, &str)>) -> Seq<(Seq<char>, Seq<char>)> {
    v.map_values(|p: (&str, &str)| (p.0@, p.1@))
}

/// `scraper`: the texts inside each element `selector` picks (see
/// [`sub_texts`]).
#[verifier::external_body]
fn select_sub_texts(html: &str, selector: &str, subs: &[&str]) -> (r: Vec<Vec<Option<String>>>)
    ensures
        r@.map_values(|v: Vec<Option<String>>| opt_seq(v@)) == sub_texts(html@, selector@, views_str(subs@)),
{
    let doc = Html::parse_document(html);
    let Ok(sel) = Selector::parse(selector) else { return Vec::new() };
    let ss: Vec<Option<Selector>> = subs.iter().map(|s| Selector::parse(s).ok()).collect();
    doc.select(&sel).map(|e| ss.iter().map(|s| s.as_ref().and_then(|s| e.select(s).next()).map(|x| x.text().collect())).collect()).collect()
}

/// `scraper`: the attributes inside each element `selector` picks (see
/// [`sub_attrs`]).
#[verifier::external_body]
fn select_sub_attrs(html: &str, selector: &str, pairs: &[(&str, &str)]) -> (r: Vec<Vec<Option<String>>>)
    ensures
        r@.map_values(|v: Vec<Option<String>>| opt_seq(v@)) == sub_attrs(html@, selector@, attr_views(pairs@)),
{
    let doc = Html::parse_document(html);
    let Ok(sel) = Selector::parse(selector) else { return Vec::new() };
    let ss: Vec<(Option<Selector>, &str)> = pairs.iter().map(|(s, a)| (Selector::parse(s).ok(), *a)).collect();
    doc.select(&sel).map(|e| ss.iter().map(|(s, a)| s.as_ref().and_then(|s| e.select(s).next()).and_then(|x| x.value().attr(a)).map(String::from)).collect()).collect()
}

/// The fields of the elements `selector` picks (see [`fields`]).
pub(crate) fn select_fields(html: &str, selector: &str, texts: &[&str], attrs: &[(&str, &str)]) -> (r: Vec<Fields>)
    ensures
        r@.map_values(|f: Fields| fields_view(f)) == fields(html@, selector@, views_str(texts@), attr_views(attrs@)),
{
    let mut ts = select_sub_texts(html, selector, texts);
    let mut ats = select_sub_attrs(html, selector, attrs);
    let ghost tv = ts@.map_values(|v: Vec<Option<String>>| opt_seq(v@));
    let ghost av = ats@.map_values(|v: Vec<Option<String>>| opt_seq(v@));
    let ghost want = fields(html@, selector@, views_str(texts@), attr_views(attrs@));
    let ghost t0 = ts@;
    let ghost a0 = ats@;
    let n: usize = if ts.len() < ats.len() { ts.len() } else { ats.len() };
    let mut r: Vec<Fields> = Vec::new();
    let mut k: usize = 0;
    while k < n
        invariant
            k <= n,
            n <= t0.len(),
            n <= a0.len(),
            n == want.len(),
            ts@ == t0.skip(k as int),
            ats@ == a0.skip(k as int),
            tv == t0.map_values(|v: Vec<Option<String>>| opt_seq(v@)),
            av == a0.map_values(|v: Vec<Option<String>>| opt_seq(v@)),
            forall|i: int| 0 <= i < want.len() ==> #[trigger] want[i] == (tv[i], av[i]),
            r@.len() == k,
            forall|i: int| 0 <= i < k ==> #[trigger] fields_view(r@[i]) == want[i],
        decreases n - k,
    {
        let t = ts.remove(0);
        let a = ats.remove(0);
        assert(t == t0[k as int]);
        assert(a == a0[k as int]);
        assert(ts@ =~= t0.skip(k + 1));
        assert(ats@ =~= a0.skip(k + 1));
        r.push(Fields { texts: t, attrs: a });
        k = k + 1;
    }
    assert(r@.map_values(|f: Fields| fields_view(f)) =~= want);
    r
}

/// For each element `selector` picks, in document order: its attribute
/// `attr` and its text; nothing where the selector does not parse.
pub uninterp spec fn anchors(html: Seq<char>, selector: Seq<char>, attr: Seq<char>) -> Seq<(Option<Seq<char>>, Seq<char>)>;

/// The view of an attribute beside a text.
pub open spec fn anchor_view(p: (Option<String>, String)) -> (Option<Seq<char>>, Seq<char>) {
    (opt_view(p.0), p.1@)
}

/// `scraper`: the attribute and the text of each element `selector` picks
/// (see [`anchors`]).
#[verifier::external_body]
pub(crate) fn select_anchors(html: &str, selector: &str, attr: &str) -> (r: Vec<(Option<String>, String)>)
    ensures
        r@.map_values(|p: (Option<String>, String)| anchor_view(p)) == anchors(html@, selector@, attr@),
{
    let doc = Html::parse_document(html);
    let Ok(sel) = Selector::parse(selector) else { return Vec::new() };
    doc.select(&sel).map(|e| (e.value().attr(attr).map(String::from), e.text().collect())).collect()
}

/// For each element `selector` picks, in document order: its attribute
/// `attr`, its text, and for each of its nearest `depth` ancestors (the
/// parent first, stopping at the first ancestor that is not an element),
/// the text of the first element inside that ancestor each selector of
/// `subs` picks; nothing where the selector does not parse.
pub uninterp spec fn anchors_in_context(
    html: Seq<char>,
    selector: Seq<char>,
    attr: Seq<char>,
    subs: Seq<Seq<char>>,
    depth: nat,
) -> Seq<(Option<Seq<char>>, Seq<char>, Seq<Seq<Option<Seq<char>>>>)>;

/// An element in its context (see [`anchors_in_context`]).
pub type InContext = (Option<String>, String, Vec<Vec<Option<String>>>);

/// The view of an [`InContext`].
pub open spec fn in_context_view(p: InContext) -> (Option<Seq<char>>, Seq<char>, Seq<Seq<Option<Seq<char>>>>) {
    (opt_view(p.0), p.1@, p.2@.map_values(|v: Vec<Option<String>>| opt_seq(v@)))
}

/// `scraper`: each element `selector` picks with what its ancestors hold
/// (see [`anchors_in_context`]).
#[verifier::external_body]
pub(crate) fn select_in_context(html: &str, selector: &str, attr: &str, subs: &[&str], depth: usize) -> (r: Vec<InContext>)
    ensures
        r@.map_values(|p: InContext| in_context_view(p)) == anchors_in_context(html@, selector@, attr@, views_str(subs@), depth as nat),
{
    let doc = Html::parse_document(html);
    let Ok(sel) = Selector::parse(selector) else { return Vec::new() };
    let ss: Vec<_> = subs.iter().map(|s| Selector::parse(s).ok()).collect();
    doc.select(&sel).map(|e| (e.value().attr(attr).map(String::from), e.text().collect(),
        e.ancestors().map_while(ElementRef::wrap).take(depth).map(|a| ss.iter().map(|s|
            s.as_ref().and_then(|s| a.select(s).next()).map(|x| x.text().collect())).collect()).collect())).collect()
}

/// For each element `selector` picks, in document order: its text, and
/// the HTML of the first element `inner` picks inside the element two
/// siblings after its parent, where that sibling is an element and holds
/// one; nothing where a selector does not parse.
pub uninterp spec fn blocks_after(html: Seq<char>, selector: Seq<char>, inner: Seq<char>) -> Seq<(Seq<char>, Option<Seq<char>>)>;

/// `scraper`: each element `selector` picks with the block after it (see
/// [`blocks_after`]).
#[verifier::external_body]
pub(crate) fn select_blocks_after(html: &str, selector: &str, inner: &str) -> (r: Vec<(String, Option<String>)>)
    ensures
        r@.map_values(|p: (String, Option<String>)| (p.0@, opt_view(p.1))) == blocks_after(html@, selector@, inner@),
{
    let doc = Html::parse_document(html);
    let (Ok(sel), Ok(ul)) = (Selector::parse(selector), Selector::parse(inner)) else { return Vec::new() };
    doc.select(&sel).map(|n| (n.text().collect(), n.parent().and_then(|p| p.next_sibling()).and_then(|s| s.next_sibling())
        .and_then(ElementRef::wrap).and_then(|d| d.select(&ul).next()).map(|u| u.html()))).collect()
}

/// The views of string slices.
pub open spec fn views_str(v: Seq<&str>) -> Seq<Seq<char>> {
    v.map_values(|s: &str| s@)
}

} // verus!
