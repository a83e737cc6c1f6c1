//! The documentation site: its table of contents, and the link fixes done
//! to the built pages.
//!
//! Reading the source directory, running `mdbook` and writing the pages is
//! I/O and stays with the caller; this module computes `SUMMARY.md` from the
//! names found and rewrites the text of each built page.
use crate::order::{chars_order, sort_strings};
use crate::text::{cat, ends_with, find_char_from, find_seq_from, first_occurrence, first_pos, from_range, push_str, replace, replace_str, starts_with, str_eq, to_chars, views};
use vstd::prelude::*;

verus! {

// ---------------------------------------------------------------------------
// File names
// ---------------------------------------------------------------------------

/// The position of the last `.` in a name.
pub open spec fn last_dot(n: Seq<char>) -> Option<int>
    decreases n.len(),
{
    if n.len() == 0 {
        None
    } else if n.last() == '.' {
        Some(n.len() - 1)
    } else {
        last_dot(n.drop_last())
    }
}

/// `Path::file_stem` of a directory entry's name: the name before its last
/// `.`, or the whole name where there is no `.` or only a leading one.
pub open spec fn name_stem(n: Seq<char>) -> Seq<char> {
    match last_dot(n) {
        Some(i) => if i > 0 {
            n.take(i)
        } else {
            n
        },
        None => n,
    }
}

/// `Path::extension` of a directory entry's name: what follows its last
/// `.`, unless that `.` is the first character.
pub open spec fn name_ext(n: Seq<char>) -> Option<Seq<char>> {
    match last_dot(n) {
        Some(i) => if i > 0 {
            Some(n.skip(i + 1))
        } else {
            None
        },
        None => None,
    }
}

/// The stem and the extension of a directory entry's name.
pub fn split_name(n: &str) -> (r: (String, Option<String>))
    ensures
        r.0@ == name_stem(n@),
        match r.1 {
            Some(e) => name_ext(n@) == Some(e@),
            None => name_ext(n@) is None,
        },
{
    let v = to_chars(n);
    let mut i: usize = v.len();
    assert(n@.take(i as int) == n@);
    while i > 0 && v[i - 1] != '.'
        invariant
            i <= v.len(),
            v@ == n@,
            last_dot(n@) == last_dot(n@.take(i as int)),
        decreases i,
    {
        assert(n@.take(i as int).drop_last() == n@.take(i - 1));
        i = i - 1;
    }
    if i == 0 {
        assert(n@.take(0) == Seq::<char>::empty());
        return (n.to_owned(), None);
    }
    assert(n@.take(i as int).last() == n@[i - 1]);
    let dot = i - 1;
    if dot == 0 {
        return (n.to_owned(), None);
    }
    (from_range(v.as_slice(), 0, dot), Some(from_range(v.as_slice(), i, v.len())))
}

/// The extension of a name is `ext`.
pub fn has_ext(n: &str, ext: &str) -> (r: bool)
    ensures
        r == (name_ext(n@) == Some(ext@)),
{
    match split_name(n).1 {
        Some(e) => str_eq(e.as_str(), ext),
        None => false,
    }
}

// ---------------------------------------------------------------------------
// SUMMARY.md
// ---------------------------------------------------------------------------

/// The route pages, in the order the contents list them.
pub open spec fn route_order() -> Seq<Seq<char>> {
    seq![
        "bilibili_collection"@, "bilibili_dynamic"@, "bilibili_fav"@, "bilibili_link_news"@,
        "bilibili_partion"@, "bilibili_partion_ranking"@, "bilibili_popular"@,
        "bilibili_precious"@, "bilibili_series"@, "bilibili_user_article"@,
        "bilibili_user_coin"@, "bilibili_user_fav"@, "bilibili_user_like"@,
        "bilibili_video_page"@, "bilibili_video_reply"@, "bilibili_vsearch"@,
        "bilibili_weekly"@, "cde"@, "zhihu_hot"@
    ]
}

fn route_order_exec() -> (r: Vec<&'static str>)
    ensures
        r@.len() == route_order().len(),
        forall|i: int| 0 <= i < r@.len() ==> (#[trigger] r@[i])@ == route_order()[i],
{
    let v = vec![
        "bilibili_collection", "bilibili_dynamic", "bilibili_fav", "bilibili_link_news",
        "bilibili_partion", "bilibili_partion_ranking", "bilibili_popular",
        "bilibili_precious", "bilibili_series", "bilibili_user_article",
        "bilibili_user_coin", "bilibili_user_fav", "bilibili_user_like",
        "bilibili_video_page", "bilibili_video_reply", "bilibili_vsearch",
        "bilibili_weekly", "cde", "zhihu_hot",
    ];
    assert(v@.len() == route_order().len());
    v
}

/// The stems of the `.md` entries, in the order given.
pub open spec fn md_stems(entries: Seq<Seq<char>>) -> Seq<Seq<char>>
    decreases entries.len(),
{
    if entries.len() == 0 {
        seq![]
    } else {
        md_stems(entries.drop_last()) + if name_ext(entries.last()) == Some("md"@) {
            seq![name_stem(entries.last())]
        } else {
            seq![]
        }
    }
}

/// One line per official page, linking into `official/`.
pub open spec fn official_lines(names: Seq<Seq<char>>) -> Seq<char>
    decreases names.len(),
{
    if names.len() == 0 {
        seq![]
    } else {
        official_lines(names.drop_last()) + "- ["@ + names.last() + "](official/"@ + names.last()
            + ".md)\n"@
    }
}

/// One line per route page that exists, in [`route_order`].
pub open spec fn route_lines(order: Seq<Seq<char>>, root: Seq<Seq<char>>) -> Seq<char>
    decreases order.len(),
{
    if order.len() == 0 {
        seq![]
    } else {
        let n = order.last();
        route_lines(order.drop_last(), root) + if root.contains(n + ".md"@) {
            "- ["@ + n + "]("@ + n + ".md)\n"@
        } else {
            seq![]
        }
    }
}

/// One line per other `.md` page, in directory order.
pub open spec fn other_lines(root: Seq<Seq<char>>) -> Seq<char>
    decreases root.len(),
{
    if root.len() == 0 {
        seq![]
    } else {
        let e = root.last();
        let stem = name_stem(e);
        other_lines(root.drop_last()) + if stem == "official"@ || stem == "SUMMARY"@
            || route_order().contains(stem) || name_ext(e) != Some("md"@) {
            seq![]
        } else {
            "- ["@ + stem + "]("@ + e + ")\n"@
        }
    }
}

/// The text of `SUMMARY.md`, from the entry names of the `official`
/// directory and of the source directory.
pub open spec fn summary(official: Seq<Seq<char>>, root: Seq<Seq<char>>) -> Seq<char> {
    "# 官方文档\n"@ + official_lines(md_stems(official).sort_by(chars_order())) + "\n# 路由\n"@
        + route_lines(route_order(), root) + other_lines(root)
}

fn md_stems_exec(entries: &[String]) -> (r: Vec<String>)
    ensures
        views(r@) == md_stems(views(entries@)),
{
    let mut out: Vec<String> = Vec::new();
    let mut i: usize = 0;
    assert(views(out@) =~= Seq::<Seq<char>>::empty());
    while i < entries.len()
        invariant
            i <= entries.len(),
            views(out@) == md_stems(views(entries@).take(i as int)),
        decreases entries.len() - i,
    {
        let ghost vs = views(entries@);
        assert(vs.take(i + 1).drop_last() == vs.take(i as int));
        assert(vs.take(i + 1).last() == entries@[i as int]@);
        let (stem, ext) = split_name(entries[i].as_str());
        let is_md = match ext {
            Some(e) => str_eq(e.as_str(), "md"),
            None => false,
        };
        if is_md {
            let ghost before = views(out@);
            out.push(stem);
            assert(views(out@) =~= before.push(name_stem(entries@[i as int]@)));
        } else {
            assert(md_stems(vs.take(i + 1)) =~= md_stems(vs.take(i as int)));
        }
        i = i + 1;
    }
    assert(views(entries@).take(entries.len() as int) == views(entries@));
    out
}

fn contains_name(root: &[String], n: &str) -> (r: bool)
    ensures
        r == views(root@).contains(n@),
{
    let mut i: usize = 0;
    while i < root.len()
        invariant
            i <= root.len(),
            forall|j: int| 0 <= j < i ==> root@[j]@ != n@,
        decreases root.len() - i,
    {
        if str_eq(root[i].as_str(), n) {
            assert(views(root@)[i as int] == n@);
            return true;
        }
        i = i + 1;
    }
    assert forall|j: int| 0 <= j < views(root@).len() implies views(root@)[j] != n@ by {
        assert(views(root@)[j] == root@[j]@);
    }
    false
}

fn in_route_order(n: &str) -> (r: bool)
    ensures
        r == route_order().contains(n@),
{
    let order = route_order_exec();
    let mut i: usize = 0;
    while i < order.len()
        invariant
            i <= order.len(),
            order@.len() == route_order().len(),
            forall|k: int| 0 <= k < order@.len() ==> (#[trigger] order@[k])@ == route_order()[k],
            forall|j: int| 0 <= j < i ==> route_order()[j] != n@,
        decreases order.len() - i,
    {
        if str_eq(order[i], n) {
            assert(route_order()[i as int] == n@);
            return true;
        }
        i = i + 1;
    }
    false
}

/// `doc_generate`'s contents: `SUMMARY.md` for the entry names of the
/// `official` directory (empty if there is none) and of the source
/// directory, each in the order the directory lists them.
pub fn summary_text(official: &[String], root: &[String]) -> (r: String)
    ensures
        r@ == summary(views(official@), views(root@)),
{
    let mut s = "# 官方文档\n".to_owned();
    let names = sort_strings(md_stems_exec(official));
    let ghost sorted = views(names@);
    let mut i: usize = 0;
    let ghost head = s@;
    assert(official_lines(sorted.take(0)) == Seq::<char>::empty());
    assert(head + Seq::<char>::empty() =~= head);
    while i < names.len()
        invariant
            i <= names.len(),
            sorted == views(names@),
            s@ == head + official_lines(sorted.take(i as int)),
        decreases names.len() - i,
    {
        assert(sorted.take(i + 1).drop_last() == sorted.take(i as int));
        assert(sorted.take(i + 1).last() == names@[i as int]@);
        push_str(&mut s, "- [");
        push_str(&mut s, names[i].as_str());
        push_str(&mut s, "](official/");
        push_str(&mut s, names[i].as_str());
        push_str(&mut s, ".md)\n");
        i = i + 1;
    }
    assert(sorted.take(names.len() as int) == sorted);
    push_str(&mut s, "\n# 路由\n");
    let order = route_order_exec();
    let ghost mid = s@;
    let ghost rv = views(root@);
    let mut k: usize = 0;
    assert(route_lines(route_order().take(0), rv) == Seq::<char>::empty());
    assert(mid + Seq::<char>::empty() =~= mid);
    while k < order.len()
        invariant
            k <= order.len(),
            order@.len() == route_order().len(),
            forall|q: int| 0 <= q < order@.len() ==> (#[trigger] order@[q])@ == route_order()[q],
            rv == views(root@),
            s@ == mid + route_lines(route_order().take(k as int), rv),
        decreases order.len() - k,
    {
        assert(route_order().take(k + 1).drop_last() == route_order().take(k as int));
        assert(route_order().take(k + 1).last() == order@[k as int]@);
        let file = cat(order[k], ".md");
        let ghost s0 = s@;
        if contains_name(root, file.as_str()) {
            push_str(&mut s, "- [");
            push_str(&mut s, order[k]);
            push_str(&mut s, "](");
            push_str(&mut s, order[k]);
            push_str(&mut s, ".md)\n");
            assert(s@ =~= s0 + ("- ["@ + order@[k as int]@ + "]("@ + order@[k as int]@ + ".md)\n"@));
        } else {
            assert(s@ =~= s0 + Seq::<char>::empty());
        }
        k = k + 1;
    }
    assert(route_order().take(order.len() as int) == route_order());
    let ghost mid2 = s@;
    let mut j: usize = 0;
    assert(other_lines(rv.take(0)) == Seq::<char>::empty());
    assert(mid2 + Seq::<char>::empty() =~= mid2);
    while j < root.len()
        invariant
            j <= root.len(),
            rv == views(root@),
            s@ == mid2 + other_lines(rv.take(j as int)),
        decreases root.len() - j,
    {
        assert(rv.take(j + 1).drop_last() == rv.take(j as int));
        assert(rv.take(j + 1).last() == root@[j as int]@);
        let (stem, ext) = split_name(root[j].as_str());
        let skip = str_eq(stem.as_str(), "official") || str_eq(stem.as_str(), "SUMMARY")
            || in_route_order(stem.as_str());
        let is_md = match ext {
            Some(e) => str_eq(e.as_str(), "md"),
            None => false,
        };
        let ghost s0 = s@;
        if !skip && is_md {
            push_str(&mut s, "- [");
            push_str(&mut s, stem.as_str());
            push_str(&mut s, "](");
            push_str(&mut s, root[j].as_str());
            push_str(&mut s, ")\n");
            assert(s@ =~= s0 + ("- ["@ + stem@ + "]("@ + root@[j as int]@ + ")\n"@));
        } else {
            assert(s@ =~= s0 + Seq::<char>::empty());
        }
        j = j + 1;
    }
    assert(rv.take(root.len() as int) == rv);
    s
}

// ---------------------------------------------------------------------------
// Link fixes in the built pages
// ---------------------------------------------------------------------------

/// The asset files whose links lose their `../`.
pub open spec fn asset_files() -> Seq<Seq<char>> {
    seq![
        "highlight.css"@, "tomorrow-night.css"@, "ayu-highlight.css"@, "elasticlunr.min.js"@,
        "mark.min.js"@, "searcher.js"@, "clipboard.min.js"@, "highlight.js"@, "book.js"@,
        "print.html"@, "toc.html"@
    ]
}

/// The replacements done to a page, in order: the `official/` prefix, the
/// `../` of scripts, frames, the search index and assets.
pub open spec fn fix_pairs() -> Seq<(Seq<char>, Seq<char>)> {
    seq![
        ("href=\"official/"@, "href=\""@),
        ("src=\"../"@, "src=\""@),
        ("href=\"../official/"@, "href=\""@),
        ("path_to_root = \"../\""@, "path_to_root = \"\""@),
        ("path_to_searchindex_js = \"../searchindex.js\""@, "path_to_searchindex_js = \"searchindex.js\""@),
        ("href=\"../css/"@, "href=\"css/"@),
        ("href=\"../FontAwesome/"@, "href=\"FontAwesome/"@),
        ("href=\"../fonts/"@, "href=\"fonts/"@),
        ("href=\"../favicon"@, "href=\"favicon"@),
    ] + asset_files().map_values(|f: Seq<char>| ("href=\"../"@ + f, "href=\""@ + f + "\""@))
}

/// The replacements applied one after another.
pub open spec fn replace_all(s: Seq<char>, pairs: Seq<(Seq<char>, Seq<char>)>) -> Seq<char>
    decreases pairs.len(),
{
    if pairs.len() == 0 {
        s
    } else {
        replace(replace_all(s, pairs.drop_last()), pairs.last().0, pairs.last().1)
    }
}

/// The link prefix that leads back to the site's root.
pub open spec fn up_link() -> Seq<char> {
    "href=\"../"@
}

/// A link found after `href="../`: pages (`.html`) link within the site,
/// everything else (the routes' examples) keeps its `../`.
pub open spec fn rewrite_target(t: Seq<char>) -> Seq<char> {
    if ".html"@.is_suffix_of(t) || "print.html"@.is_prefix_of(t) {
        "href=\""@ + t + "\""@
    } else {
        "href=\"../"@ + t + "\""@
    }
}

/// The rest of the page from `pos` with each `href="../target"` rewritten
/// (see [`rewrite_target`]); from a link without a closing `"` on, the text
/// stays as it is.
#[verifier::opaque]
pub open spec fn fix_links_from(s: Seq<char>, pos: int) -> Seq<char>
    decreases s.len() - pos,
{
    if pos < 0 || pos > s.len() {
        seq![]
    } else {
        match first_occurrence(s, up_link(), pos) {
            None => s.skip(pos),
            Some(found) => {
                let vs = found + 9;
                match first_pos(s.skip(vs), '"') {
                    None => s.skip(pos),
                    Some(e) => if pos <= found && pos < vs + e + 1 <= s.len() {
                        s.subrange(pos, found) + rewrite_target(s.subrange(vs, vs + e))
                            + fix_links_from(s, vs + e + 1)
                    } else {
                        s.skip(pos)
                    },
                }
            },
        }
    }
}

/// `doc_generate`'s `fix_content`: the replacements of [`fix_pairs`], then
/// the `href="../` links rewritten.
pub open spec fn fixed_page(s: Seq<char>) -> Seq<char> {
    fix_links_from(replace_all(s, fix_pairs()), 0)
}

fn fix_pairs_exec() -> (r: Vec<(String, String)>)
    ensures
        crate::easyuser::pair_views(r@) == fix_pairs(),
{
    let mut v: Vec<(String, String)> = Vec::new();
    v.push(("href=\"official/".to_owned(), "href=\"".to_owned()));
    v.push(("src=\"../".to_owned(), "src=\"".to_owned()));
    v.push(("href=\"../official/".to_owned(), "href=\"".to_owned()));
    v.push(("path_to_root = \"../\"".to_owned(), "path_to_root = \"\"".to_owned()));
    v.push((
        "path_to_searchindex_js = \"../searchindex.js\"".to_owned(),
        "path_to_searchindex_js = \"searchindex.js\"".to_owned(),
    ));
    v.push(("href=\"../css/".to_owned(), "href=\"css/".to_owned()));
    v.push(("href=\"../FontAwesome/".to_owned(), "href=\"FontAwesome/".to_owned()));
    v.push(("href=\"../fonts/".to_owned(), "href=\"fonts/".to_owned()));
    v.push(("href=\"../favicon".to_owned(), "href=\"favicon".to_owned()));
    let files = vec![
        "highlight.css", "tomorrow-night.css", "ayu-highlight.css", "elasticlunr.min.js",
        "mark.min.js", "searcher.js", "clipboard.min.js", "highlight.js", "book.js",
        "print.html", "toc.html",
    ];
    let ghost head = crate::easyuser::pair_views(v@);
    let ghost fs = asset_files();
    assert(files@.len() == fs.len());
    assert(forall|k: int| 0 <= k < files@.len() ==> (#[trigger] files@[k])@ == fs[k]);
    let mut i: usize = 0;
    while i < files.len()
        invariant
            i <= files.len(),
            files@.len() == fs.len(),
            fs == asset_files(),
            forall|k: int| 0 <= k < files@.len() ==> (#[trigger] files@[k])@ == fs[k],
            crate::easyuser::pair_views(v@) == head + fs.take(i as int).map_values(
                |f: Seq<char>| ("href=\"../"@ + f, "href=\""@ + f + "\""@),
            ),
        decreases files.len() - i,
    {
        let from = cat("href=\"../", files[i]);
        let mut to = cat("href=\"", files[i]);
        push_str(&mut to, "\"");
        let ghost before = crate::easyuser::pair_views(v@);
        v.push((from, to));
        assert(crate::easyuser::pair_views(v@) =~= before.push((from@, to@)));
        assert(fs.take(i + 1).map_values(|f: Seq<char>| ("href=\"../"@ + f, "href=\""@ + f + "\""@))
            =~= fs.take(i as int).map_values(
            |f: Seq<char>| ("href=\"../"@ + f, "href=\""@ + f + "\""@),
        ).push(("href=\"../"@ + fs[i as int], "href=\""@ + fs[i as int] + "\""@)));
        i = i + 1;
    }
    assert(fs.take(files.len() as int) == fs);
    assert(crate::easyuser::pair_views(v@) =~= fix_pairs());
    v
}

proof fn lemma_fix_step(s: Seq<char>, pos: int, found: int, e: int)
    requires
        0 <= pos <= s.len(),
        first_occurrence(s, up_link(), pos) == Some(found),
        pos <= found,
        found + 9 <= s.len(),
        first_pos(s.skip(found + 9), '"') == Some(e),
        0 <= e < s.len() - (found + 9),
    ensures
        fix_links_from(s, pos) == s.subrange(pos, found) + rewrite_target(
            s.subrange(found + 9, found + 9 + e),
        ) + fix_links_from(s, found + 9 + e + 1),
{
    reveal(fix_links_from);
}

proof fn lemma_fix_no_quote(s: Seq<char>, pos: int, found: int)
    requires
        0 <= pos <= s.len(),
        first_occurrence(s, up_link(), pos) == Some(found),
        first_pos(s.skip(found + 9), '"') is None,
    ensures
        fix_links_from(s, pos) == s.skip(pos),
{
    reveal(fix_links_from);
}

proof fn lemma_fix_none(s: Seq<char>, pos: int)
    requires
        0 <= pos <= s.len(),
        first_occurrence(s, up_link(), pos) is None,
    ensures
        fix_links_from(s, pos) == s.skip(pos),
{
    reveal(fix_links_from);
}

/// Rewrites the `href="../` links of a page (see [`fix_links_from`]).
fn fix_links(s: &str) -> (r: String)
    ensures
        r@ == fix_links_from(s@, 0),
{
    let v = to_chars(s);
    let needle = to_chars("href=\"../");
    proof {
        reveal_strlit("href=\"../");
    }
    assert(needle@ == up_link());
    let mut out = String::new();
    let mut pos: usize = 0;
    assert(out@ + fix_links_from(s@, 0) =~= fix_links_from(s@, 0));
    loop
        invariant
            v@ == s@,
            needle@ == up_link(),
            needle@.len() == 9,
            pos <= v@.len(),
            out@ + fix_links_from(s@, pos as int) == fix_links_from(s@, 0),
        decreases v@.len() - pos,
    {
        match find_seq_from(v.as_slice(), needle.as_slice(), pos) {
            None => {
                proof {
                    lemma_fix_none(s@, pos as int);
                }
                push_str(&mut out, from_range(v.as_slice(), pos, v.len()).as_str());
                assert(v@.subrange(pos as int, v@.len() as int) == s@.skip(pos as int));
                return out;
            },
            Some(found) => {
                assert(crate::text::occurs_at(v@, needle@, found as int));
                assert(found + 9 <= v@.len());
                let n = v.len();
                assert(found + 9 <= n);
                let vs = found + 9;
                match find_char_from(v.as_slice(), vs, '"') {
                    None => {
                        proof {
                            lemma_fix_no_quote(s@, pos as int, found as int);
                        }
                        push_str(&mut out, from_range(v.as_slice(), pos, v.len()).as_str());
                        assert(v@.subrange(pos as int, v@.len() as int) == s@.skip(pos as int));
                        return out;
                    },
                    Some(end) => {
                        assert(end < v@.len());
                        assert(end < v.len());
                        proof {
                            lemma_fix_step(s@, pos as int, found as int, end - vs);
                        }
                        let ghost out0 = out@;
                        push_str(&mut out, from_range(v.as_slice(), pos, found).as_str());
                        let target = from_range(v.as_slice(), vs, end);
                        let t = target.as_str();
                        if ends_with(t, ".html") || starts_with(t, "print.html") {
                            push_str(&mut out, "href=\"");
                        } else {
                            push_str(&mut out, "href=\"../");
                        }
                        push_str(&mut out, t);
                        push_str(&mut out, "\"");
                        assert(out@ =~= out0 + s@.subrange(pos as int, found as int)
                            + rewrite_target(s@.subrange(vs as int, end as int)));
                        pos = end + 1;
                    },
                }
            },
        }
    }
}

/// `doc_generate`'s `fix_content` (see [`fixed_page`]).
pub fn fix_content(content: &str) -> (r: String)
    ensures
        r@ == fixed_page(content@),
{
    let pairs = fix_pairs_exec();
    let ghost pv = crate::easyuser::pair_views(pairs@);
    let mut s = content.to_owned();
    let mut i: usize = 0;
    while i < pairs.len()
        invariant
            i <= pairs.len(),
            pv == crate::easyuser::pair_views(pairs@),
            pv == fix_pairs(),
            s@ == replace_all(content@, pv.take(i as int)),
        decreases pairs.len() - i,
    {
        assert(pv.take(i + 1).drop_last() == pv.take(i as int));
        assert(pv.take(i + 1).last() == (pairs@[i as int].0@, pairs@[i as int].1@));
        s = replace_str(s.as_str(), pairs[i].0.as_str(), pairs[i].1.as_str());
        i = i + 1;
    }
    assert(pv.take(pairs.len() as int) == pv);
    fix_links(s.as_str())
}

/// A built file whose links are fixed: an `.html` or `.js` file.
pub fn needs_link_fix(name: &str) -> (r: bool)
    ensures
        r == (name_ext(name@) == Some("html"@) || name_ext(name@) == Some("js"@)),
{
    has_ext(name, "html") || has_ext(name, "js")
}

} // verus!
