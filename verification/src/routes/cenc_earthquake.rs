//! `/cenc_earthquake`: the latest earthquakes on the China Earthquake
//! Networks Center's home page ("最新地震" block, rendered on the server).
use crate::dates::{datetime_str_to_rss, local0800_rfc2822, or_else};
use crate::easyuser::{pair_views, param, Params};
use crate::feed::{Feed, FeedItem, FeedItemView, FeedView};
use crate::html::{attr_views, blocks_after, fields, fields_view, select_blocks_after, select_fields, views_str, Fields};
use crate::json::{parse_usize, spec_parse_usize};
use crate::request_rules::RouteError;
use crate::routes::{absolute, feed_result_is, get_with_header, item_views, Fetch};
use crate::text::{
    cat, contains_seq, contains_str, drop_leading, drop_trailing, eq_pred, is_empty, push_str, split_once,
    split_once_exec, starts_with, trim, trim_ends_str, trim_str,
};
use vstd::prelude::*;

verus! {

/// The request for the home page, asked as a browser.
pub fn request() -> (r: Fetch)
    ensures
        r.url@ == "https://www.cenc.ac.cn/"@,
        pair_views(r.headers@) == seq![("User-Agent"@, "Mozilla/5.0 (Windows NT 10.0; Win64; x64) AppleWebKit/537.36 (KHTML, like Gecko) Chrome/120.0.0.0 Safari/537.36"@)],
{
    get_with_header("https://www.cenc.ac.cn/".to_owned(), "User-Agent", "Mozilla/5.0 (Windows NT 10.0; Win64; x64) AppleWebKit/537.36 (KHTML, like Gecko) Chrome/120.0.0.0 Safari/537.36")
}

/// How many earthquakes are listed: `limit` where it reads as a number,
/// else 20; at most 50.
pub open spec fn limit(para: Map<Seq<char>, Seq<char>>) -> nat {
    let n: nat = match param(para, "limit"@) {
        Some(t) => match spec_parse_usize(t) {
            Some(v) => v as nat,
            None => 20,
        },
        None => 20,
    };
    if n < 50 { n } else { 50 }
}

fn limit_exec(para: &Params) -> (r: usize)
    ensures
        r as nat == limit(para@),
{
    let n: usize = match para.get("limit") {
        Some(t) => match parse_usize(t.as_str()) {
            Some(v) => v,
            None => 20,
        },
        None => 20,
    };
    if n < 50 { n } else { 50 }
}

/// The block of the first title that names "最新地震" (nothing where it
/// has none, or no title does).
pub open spec fn latest_block(blocks: Seq<(Seq<char>, Option<Seq<char>>)>) -> Option<Seq<char>>
    decreases blocks.len(),
{
    if blocks.len() == 0 {
        None
    } else if contains_seq(blocks[0].0, "最新地震"@) {
        blocks[0].1
    } else {
        latest_block(blocks.drop_first())
    }
}

/// What is read of each entry (`li`) of the block: the text of its first
/// link and of its date, the `title` and `href` of its first link.
pub open spec fn entry_fields(block: Seq<char>) -> Seq<(Seq<Option<Seq<char>>>, Seq<Option<Seq<char>>>)> {
    fields(block, "li"@, seq!["a"@, "span.index_art_date"@], seq![("a"@, "title"@), ("a"@, "href"@)])
}

/// The `k`-th value, if any.
pub open spec fn opt_at(s: Seq<Option<Seq<char>>>, k: int) -> Option<Seq<char>> {
    if 0 <= k < s.len() {
        s[k]
    } else {
        None
    }
}

/// An entry as (title, link, date): the title is the first link's `title`
/// (else its text), trimmed; nothing without a link or with an empty title.
/// The date is the date's text trimmed and without its brackets.
pub open spec fn entry_of(f: (Seq<Option<Seq<char>>>, Seq<Option<Seq<char>>>)) -> Option<(Seq<char>, Seq<char>, Seq<char>)> {
    let title = match opt_at(f.1, 0) {
        Some(t) => Some(trim(t)),
        None => match opt_at(f.0, 0) {
            Some(x) => Some(trim(x)),
            None => None,
        },
    };
    match title {
        None => None,
        Some(t) => if t.len() == 0 {
            None
        } else {
            let href = match opt_at(f.1, 1) {
                Some(h) => trim(h),
                None => seq![],
            };
            let date_text = match opt_at(f.0, 1) {
                Some(d) => d,
                None => seq![],
            };
            Some((
                t,
                absolute(Some(href), "https://www.cenc.ac.cn"@),
                drop_trailing(drop_leading(trim(date_text), eq_pred('[')), eq_pred(']')),
            ))
        },
    }
}

/// The entries, in order, those without a title passed over.
pub open spec fn entries_of(fs: Seq<(Seq<Option<Seq<char>>>, Seq<Option<Seq<char>>>)>) -> Seq<(Seq<char>, Seq<char>, Seq<char>)>
    decreases fs.len(),
{
    if fs.len() == 0 {
        seq![]
    } else {
        match entry_of(fs.last()) {
            Some(e) => entries_of(fs.drop_last()).push(e),
            None => entries_of(fs.drop_last()),
        }
    }
}

/// `x` padded on the left with `0` to two characters.
pub open spec fn pad2(x: Seq<char>) -> Seq<char> {
    if x.len() >= 2 {
        x
    } else if x.len() == 1 {
        seq!['0'] + x
    } else {
        seq!['0', '0']
    }
}

/// An entry's date (`M-D`, or one number used for both): midnight of that
/// day in 2026 at UTC+8; `now` where empty or unreadable.
pub open spec fn entry_date(date: Seq<char>, now: Seq<char>) -> Seq<char> {
    if date.len() == 0 {
        now
    } else {
        let (m, d) = match split_once(date, '-') {
            Some(p) => p,
            None => (date, date),
        };
        or_else(local0800_rfc2822("2026-"@ + pad2(m) + "-"@ + pad2(d) + " 00:00:00"@), now)
    }
}

/// The item of an entry: its title (also as description), link and date.
pub open spec fn entry_item(e: (Seq<char>, Seq<char>, Seq<char>), now: Seq<char>) -> FeedItemView {
    FeedItemView {
        title: Some(e.0),
        link: Some(e.1),
        description: Some(e.0),
        pub_date: Some(entry_date(e.2, now)),
        author: None,
        guid: None,
        categories: seq![],
    }
}

/// The feed of the home page: the first `limit` entries of the latest
/// earthquakes block, or the failure where the block is not found.
pub open spec fn spec_feed(para: Map<Seq<char>, Seq<char>>, html: Seq<char>, now: Seq<char>) -> Result<FeedView, Seq<char>> {
    match latest_block(blocks_after(html, "span.tw_mk_title"@, "ul"@)) {
        None => Err("找不到最新地震区块"@),
        Some(b) => {
            let all = entries_of(entry_fields(b));
            let es = if all.len() > limit(para) { all.take(limit(para) as int) } else { all };
            Ok(FeedView {
                title: "中国地震台网中心 最新地震"@,
                link: "https://www.cenc.ac.cn/"@,
                description: "中国地震台网中心 最新地震速报"@,
                pub_date: None,
                items: es.map_values(|e: (Seq<char>, Seq<char>, Seq<char>)| entry_item(e, now)),
            })
        },
    }
}

fn pad2_exec(x: &str) -> (r: String)
    ensures
        r@ == pad2(x@),
{
    let v = crate::text::to_chars(x);
    if v.len() >= 2 {
        x.to_owned()
    } else if v.len() == 1 {
        let mut s = "0".to_owned();
        push_str(&mut s, x);
        proof {
            reveal_strlit("0");
        }
        s
    } else {
        proof {
            reveal_strlit("00");
        }
        "00".to_owned()
    }
}

fn entry_date_exec(date: &str, now: &str) -> (r: String)
    ensures
        r@ == entry_date(date@, now@),
{
    if is_empty(date) {
        return now.to_owned();
    }
    let (m, d) = match split_once_exec(date, '-') {
        Some(p) => p,
        None => (date.to_owned(), date.to_owned()),
    };
    let mut s = cat("2026-", pad2_exec(m.as_str()).as_str());
    push_str(&mut s, "-");
    push_str(&mut s, pad2_exec(d.as_str()).as_str());
    push_str(&mut s, " 00:00:00");
    match datetime_str_to_rss(s.as_str()) {
        Some(x) => x,
        None => now.to_owned(),
    }
}

fn entry_exec(f: &Fields) -> (r: Option<(String, String, String)>)
    ensures
        match r {
            Some(e) => entry_of(fields_view(*f)) == Some((e.0@, e.1@, e.2@)),
            None => entry_of(fields_view(*f)) is None,
        },
{
    let ghost fv = fields_view(*f);
    let title: Option<String> = if f.attrs.len() > 0 && f.attrs[0].is_some() {
        match &f.attrs[0] {
            Some(t) => Some(trim_str(t.as_str())),
            None => None,
        }
    } else if f.texts.len() > 0 {
        match &f.texts[0] {
            Some(x) => Some(trim_str(x.as_str())),
            None => None,
        }
    } else {
        None
    };
    let t = match title {
        Some(t) => t,
        None => return None,
    };
    if is_empty(t.as_str()) {
        return None;
    }
    let href = if f.attrs.len() > 1 {
        match &f.attrs[1] {
            Some(h) => trim_str(h.as_str()),
            None => String::new(),
        }
    } else {
        String::new()
    };
    let link = if starts_with(href.as_str(), "http") {
        href
    } else {
        cat("https://www.cenc.ac.cn", href.as_str())
    };
    let date_text = if f.texts.len() > 1 {
        match &f.texts[1] {
            Some(d) => d.clone(),
            None => String::new(),
        }
    } else {
        String::new()
    };
    let date = trim_ends_str(trim_str(date_text.as_str()).as_str(), '[', ']');
    Some((t, link, date))
}

/// `get`, after the fetch: the feed of the home page (see [`spec_feed`]);
/// `now` is the current time in RSS form.
pub fn build_feed(para: &Params, html: &str, now: &str) -> (r: Result<Feed, RouteError>)
    ensures
        feed_result_is(r, spec_feed(para@, html@, now@)),
{
    let blocks = select_blocks_after(html, "span.tw_mk_title", "ul");
    let ghost bv = blocks@.map_values(|p: (String, Option<String>)| (p.0@, crate::feed::opt_view(p.1)));
    let mut block: Option<&String> = None;
    let mut i: usize = 0;
    assert(bv.skip(0) =~= bv);
    while i < blocks.len()
        invariant_except_break
            i <= blocks.len(),
            bv == blocks@.map_values(|p: (String, Option<String>)| (p.0@, crate::feed::opt_view(p.1))),
            latest_block(bv.skip(i as int)) == latest_block(bv),
            block is None,
        ensures
            match block {
                Some(b) => latest_block(bv) == Some(b@),
                None => latest_block(bv) is None,
            },
        decreases blocks.len() - i,
    {
        assert(bv.skip(i as int)[0] == (blocks@[i as int].0@, crate::feed::opt_view(blocks@[i as int].1)));
        assert(bv.skip(i as int).drop_first() =~= bv.skip(i + 1));
        if contains_str(blocks[i].0.as_str(), "最新地震") {
            block = match &blocks[i].1 {
                Some(b) => Some(b),
                None => None,
            };
            break;
        }
        i = i + 1;
        if i == blocks.len() {
            assert(bv.skip(i as int) =~= Seq::<(Seq<char>, Option<Seq<char>>)>::empty());
        }
    }
    let b = match block {
        Some(b) => b,
        None => return Err(RouteError::msg("找不到最新地震区块")),
    };
    let texts = vec!["a", "span.index_art_date"];
    let attrs = vec![("a", "title"), ("a", "href")];
    assert(views_str(texts@) =~= seq!["a"@, "span.index_art_date"@]);
    assert(attr_views(attrs@) =~= seq![("a"@, "title"@), ("a"@, "href"@)]);
    let fs = select_fields(b.as_str(), "li", texts.as_slice(), attrs.as_slice());
    let ghost fv = fs@.map_values(|f: Fields| fields_view(f));
    let lim = limit_exec(para);
    let mut items: Vec<FeedItem> = Vec::new();
    let mut k: usize = 0;
    assert(fv.take(0) =~= Seq::<(Seq<Option<Seq<char>>>, Seq<Option<Seq<char>>>)>::empty());
    while k < fs.len() && items.len() < lim
        invariant
            k <= fs.len(),
            fv == fs@.map_values(|f: Fields| fields_view(f)),
            items@.len() <= lim,
            item_views(items@) == entries_of(fv.take(k as int)).map_values(
                |e: (Seq<char>, Seq<char>, Seq<char>)| entry_item(e, now@),
            ),
        decreases fs.len() - k,
    {
        assert(fv.take(k + 1).drop_last() =~= fv.take(k as int));
        assert(fv.take(k + 1).last() == fields_view(fs@[k as int]));
        match entry_exec(&fs[k]) {
            Some(e) => {
                let it = FeedItem {
                    title: Some(e.0.clone()),
                    link: Some(e.1),
                    description: Some(e.0),
                    pub_date: Some(entry_date_exec(e.2.as_str(), now)),
                    author: None,
                    guid: None,
                    categories: Vec::new(),
                };
                assert(it@.categories =~= Seq::<Seq<char>>::empty());
                let ghost before = item_views(items@);
                items.push(it);
                assert(item_views(items@) =~= before.push(it@));
            },
            None => {},
        }
        k = k + 1;
    }
    proof {
        let all = entries_of(fv);
        lemma_entries_prefix(fv, k as int);
        let es = if all.len() > limit(para@) { all.take(limit(para@) as int) } else { all };
        let got = entries_of(fv.take(k as int));
        if k == fs.len() {
            assert(fv.take(k as int) =~= fv);
        }
        assert(got =~= es);
        assert(item_views(items@) =~= es.map_values(|e: (Seq<char>, Seq<char>, Seq<char>)| entry_item(e, now@)));
    }
    Ok(Feed {
        title: "中国地震台网中心 最新地震".to_owned(),
        link: "https://www.cenc.ac.cn/".to_owned(),
        description: "中国地震台网中心 最新地震速报".to_owned(),
        pub_date: None,
        items,
    })
}

/// The entries of a prefix are a prefix of the entries.
proof fn lemma_entries_prefix(fs: Seq<(Seq<Option<Seq<char>>>, Seq<Option<Seq<char>>>)>, k: int)
    requires
        0 <= k <= fs.len(),
    ensures
        entries_of(fs.take(k)).len() <= entries_of(fs).len(),
        entries_of(fs).take(entries_of(fs.take(k)).len() as int) == entries_of(fs.take(k)),
    decreases fs.len() - k,
{
    if k == fs.len() {
        assert(fs.take(k) =~= fs);
        assert(entries_of(fs).take(entries_of(fs).len() as int) =~= entries_of(fs));
    } else {
        lemma_entries_prefix(fs, k + 1);
        assert(fs.take(k + 1).drop_last() =~= fs.take(k));
        let a = entries_of(fs.take(k));
        let b = entries_of(fs.take(k + 1));
        let all = entries_of(fs);
        assert(b.take(a.len() as int) =~= a);
        assert(all.take(a.len() as int) =~= all.take(b.len() as int).take(a.len() as int));
    }
}

/// Law: an entry's item is titled (and described) by the entry's title and
/// links to its link.
pub proof fn law_entry_link(e: (Seq<char>, Seq<char>, Seq<char>), now: Seq<char>)
    ensures
        entry_item(e, now).title == Some(e.0),
        entry_item(e, now).description == Some(e.0),
        entry_item(e, now).link == Some(e.1),
{
}

} // verus!
