//! `/bilibili_video_page`: the parts of a bilibili video, the last first.
use crate::easyuser::{param, Params};
use crate::feed::{Feed, FeedItem, FeedItemView, FeedView};
use crate::json::{json_as_str, json_index, json_pointer, ptr_array, Json};
use crate::request_rules::RouteError;
use crate::routes::bilibili_live_area::usize_param;
use crate::routes::bilibili_video::{embed, int_of, int_of_exec, spec_embed};
use crate::routes::{get_with_header, member_str, member_str_exec, Fetch};
use crate::text::{cat, dec_int, i64_to_string, push_str};
use vstd::prelude::*;

verus! {

/// The video's page.
pub open spec fn video_link(bvid: Seq<char>) -> Seq<char> {
    "https://www.bilibili.com/video/"@ + bvid
}

/// The request: the video's API address, with its page as `Referer`.
pub fn request(para: &Params) -> (r: Result<Fetch, RouteError>)
    ensures
        match r {
            Ok(f) => param(para@, "bvid"@) matches Some(b) && f.url@
                == "https://api.bilibili.com/x/web-interface/view?bvid="@ + b
                && crate::easyuser::pair_views(f.headers@) == seq![("Referer"@, video_link(b))],
            Err(RouteError::Message(m)) => param(para@, "bvid"@) is None && m@ == "缺少 bvid 参数"@,
            Err(_) => false,
        },
{
    let bvid = match para.get("bvid") {
        Some(b) => b,
        None => return Err(RouteError::msg("缺少 bvid 参数")),
    };
    let link = cat("https://www.bilibili.com/video/", bvid.as_str());
    Ok(get_with_header(
        cat("https://api.bilibili.com/x/web-interface/view?bvid=", bvid.as_str()),
        "Referer",
        link.as_str(),
    ))
}

/// A part's number.
pub open spec fn page_no(p: Json) -> i64 {
    int_of(p, "page"@)
}

/// `x` put into a list sorted by descending part number, after every
/// element with a number at least as high (a stable insertion).
pub open spec fn insert_desc(sorted: Seq<Json>, x: Json) -> Seq<Json>
    decreases sorted.len(),
{
    if sorted.len() == 0 {
        seq![x]
    } else if page_no(sorted.last()) >= page_no(x) {
        sorted.push(x)
    } else {
        insert_desc(sorted.drop_last(), x).push(sorted.last())
    }
}

/// The parts by descending number; parts with equal numbers keep their
/// order (`sort_by` is stable).
pub open spec fn sorted_desc(s: Seq<Json>) -> Seq<Json>
    decreases s.len(),
{
    if s.len() == 0 {
        seq![]
    } else {
        insert_desc(sorted_desc(s.drop_last()), s.last())
    }
}

proof fn lemma_insert_at(sorted: Seq<Json>, x: Json, pos: int)
    requires
        0 <= pos <= sorted.len(),
        forall|j: int| pos <= j < sorted.len() ==> page_no(#[trigger] sorted[j]) < page_no(x),
        pos == 0 || page_no(sorted[pos - 1]) >= page_no(x),
    ensures
        insert_desc(sorted, x) == sorted.insert(pos, x),
    decreases sorted.len() - pos,
{
    if pos == sorted.len() {
        if sorted.len() == 0 {
            assert(sorted.insert(pos, x) =~= seq![x]);
        } else {
            assert(sorted.insert(pos, x) =~= sorted.push(x));
        }
    } else {
        let d = sorted.drop_last();
        assert forall|j: int| pos <= j < d.len() implies page_no(#[trigger] d[j]) < page_no(x) by {
            assert(d[j] == sorted[j]);
        }
        if pos > 0 {
            assert(d[pos - 1] == sorted[pos - 1]);
        }
        lemma_insert_at(d, x, pos);
        assert(sorted.insert(pos, x) =~= d.insert(pos, x).push(sorted.last()));
    }
}

fn sort_pages<'a>(list: &'a Vec<Json>) -> (r: Vec<&'a Json>)
    ensures
        r@.map_values(|x: &Json| *x) == sorted_desc(list@),
{
    let mut out: Vec<&'a Json> = Vec::new();
    let mut i: usize = 0;
    assert(out@.map_values(|x: &Json| *x) =~= sorted_desc(list@.take(0)));
    while i < list.len()
        invariant
            i <= list.len(),
            out@.map_values(|x: &Json| *x) == sorted_desc(list@.take(i as int)),
        decreases list.len() - i,
    {
        assert(list@.take(i + 1).drop_last() == list@.take(i as int));
        assert(list@.take(i + 1).last() == list@[i as int]);
        let x = &list[i];
        let kx = int_of_exec(x, "page");
        let ghost cur = out@.map_values(|x: &Json| *x);
        let mut pos: usize = out.len();
        while pos > 0 && int_of_exec(out[pos - 1], "page") < kx
            invariant
                pos <= out.len(),
                cur == out@.map_values(|x: &Json| *x),
                kx == page_no(*x),
                forall|j: int| pos <= j < cur.len() ==> page_no(#[trigger] cur[j]) < kx,
            decreases pos,
        {
            assert(cur[pos - 1] == *out@[pos - 1]);
            pos = pos - 1;
        }
        proof {
            if pos > 0 {
                assert(cur[pos - 1] == *out@[pos - 1]);
            }
            lemma_insert_at(cur, *x, pos as int);
        }
        out.insert(pos, x);
        assert(out@.map_values(|x: &Json| *x) =~= cur.insert(pos as int, *x));
        i = i + 1;
    }
    assert(list@.take(list.len() as int) == list@);
    out
}

/// The item of one part: its name, the video's page at that part, and the
/// player, cover and names when embedding.
pub open spec fn part_item(p: Json, link: Seq<char>, aid: i64, bvid: Seq<char>, pic: Seq<char>, name: Seq<char>, embed: bool) -> FeedItemView {
    let part = member_str(p, "part"@);
    FeedItemView {
        title: Some(part),
        link: Some(link + "?p="@ + dec_int(page_no(p) as int)),
        description: Some(
            if embed {
                "<iframe width=\"640\" height=\"360\" src=\"https://www.bilibili.com/blackboard/html5mobileplayer.html?aid="@
                    + dec_int(aid as int) + "&amp;cid="@ + dec_int(int_of(p, "cid"@) as int)
                    + "&amp;bvid="@ + bvid
                    + "\" frameborder=\"0\" allowfullscreen=\"\" referrerpolicy=\"no-referrer\"></iframe><br><img src=\""@
                    + pic + "\" referrerpolicy=\"no-referrer\"><br>"@ + part + " - "@ + name
            } else {
                seq![]
            },
        ),
        pub_date: None,
        author: None,
        guid: None,
        categories: seq![],
    }
}

/// The feed of the parts (at most `limit`, 10 by default), or the failure.
pub open spec fn spec_feed(para: Map<Seq<char>, Seq<char>>, json: Json) -> Result<FeedView, Seq<char>> {
    match param(para, "bvid"@) {
        None => Err("缺少 bvid 参数"@),
        Some(b) => match json_pointer(json, "/data"@) {
            None => Err("找不到 data 字段"@),
            Some(data) => match ptr_array(data, "/pages"@) {
                None => Err("找不到 data/pages 字段或不是数组"@),
                Some(pages) => {
                    let name = member_str(data, "title"@);
                    let bvid = match json_as_str(json_index(data, "bvid"@)) {
                        Some(x) => x,
                        None => b,
                    };
                    let sorted = sorted_desc(pages);
                    let limit = usize_param(para, "limit"@, 10);
                    let shown = if limit < sorted.len() {
                        sorted.take(limit as int)
                    } else {
                        sorted
                    };
                    Ok(
                        FeedView {
                            title: "视频 "@ + name + " 的选集列表"@,
                            link: video_link(b),
                            description: "视频 "@ + name + " 的视频选集列表"@,
                            pub_date: None,
                            items: shown.map_values(
                                |p: Json|
                                    part_item(
                                        p,
                                        video_link(b),
                                        int_of(data, "aid"@),
                                        bvid,
                                        member_str(data, "pic"@),
                                        name,
                                        spec_embed(para),
                                    ),
                            ),
                        },
                    )
                },
            },
        },
    }
}

fn part_item_exec(p: &Json, link: &str, aid: i64, bvid: &str, pic: &str, name: &str, embed: bool) -> (r: FeedItem)
    ensures
        r@ == part_item(*p, link@, aid, bvid@, pic@, name@, embed),
{
    let part = member_str_exec(p, "part");
    let mut d = String::new();
    if embed {
        push_str(
            &mut d,
            "<iframe width=\"640\" height=\"360\" src=\"https://www.bilibili.com/blackboard/html5mobileplayer.html?aid=",
        );
        push_str(&mut d, i64_to_string(aid).as_str());
        push_str(&mut d, "&amp;cid=");
        push_str(&mut d, i64_to_string(int_of_exec(p, "cid")).as_str());
        push_str(&mut d, "&amp;bvid=");
        push_str(&mut d, bvid);
        push_str(
            &mut d,
            "\" frameborder=\"0\" allowfullscreen=\"\" referrerpolicy=\"no-referrer\"></iframe><br><img src=\"",
        );
        push_str(&mut d, pic);
        push_str(&mut d, "\" referrerpolicy=\"no-referrer\"><br>");
        push_str(&mut d, part.as_str());
        push_str(&mut d, " - ");
        push_str(&mut d, name);
    }
    let mut l = cat(link, "?p=");
    push_str(&mut l, i64_to_string(int_of_exec(p, "page")).as_str());
    let r = FeedItem {
        title: Some(part),
        link: Some(l),
        description: Some(d),
        pub_date: None,
        author: None,
        guid: None,
        categories: Vec::new(),
    };
    assert(r@.categories =~= Seq::<Seq<char>>::empty());
    r
}

/// The feed of the parts (see [`spec_feed`]).
pub fn build_feed(para: &Params, json: &Json) -> (r: Result<Feed, RouteError>)
    ensures
        match r {
            Ok(f) => spec_feed(para@, *json) == Ok::<_, Seq<char>>(f@),
            Err(RouteError::Message(m)) => spec_feed(para@, *json) == Err::<FeedView, _>(m@),
            Err(_) => false,
        },
{
    let b = match para.get("bvid") {
        Some(b) => b,
        None => return Err(RouteError::msg("缺少 bvid 参数")),
    };
    let data = match json.pointer("/data") {
        Some(d) => d,
        None => return Err(RouteError::msg("找不到 data 字段")),
    };
    let pages = match data.ptr_array("/pages") {
        Some(p) => p,
        None => return Err(RouteError::msg("找不到 data/pages 字段或不是数组")),
    };
    let name = member_str_exec(data, "title");
    let pic = member_str_exec(data, "pic");
    let aid = int_of_exec(data, "aid");
    let bvid = match data.str_at("bvid") {
        Some(x) => x.clone(),
        None => b.clone(),
    };
    let link = cat("https://www.bilibili.com/video/", b.as_str());
    let limit: usize = match para.get("limit") {
        Some(v) => match crate::json::parse_usize(v.as_str()) {
            Some(n) => n,
            None => 10,
        },
        None => 10,
    };
    let em = embed(para);
    let sorted = sort_pages(pages);
    let ghost sv = sorted@.map_values(|x: &Json| *x);
    let n = if limit < sorted.len() {
        limit
    } else {
        sorted.len()
    };
    let mut items: Vec<FeedItem> = Vec::new();
    let mut i: usize = 0;
    while i < n
        invariant
            i <= n,
            n <= sorted.len(),
            sv == sorted@.map_values(|x: &Json| *x),
            items.len() == i,
            forall|j: int| 0 <= j < i ==> #[trigger] items@[j]@ == part_item(
                sv[j],
                link@,
                aid,
                bvid@,
                pic@,
                name@,
                em,
            ),
        decreases n - i,
    {
        assert(sv[i as int] == *sorted@[i as int]);
        items.push(part_item_exec(sorted[i], link.as_str(), aid, bvid.as_str(), pic.as_str(), name.as_str(), em));
        i = i + 1;
    }
    let mut title = cat("视频 ", name.as_str());
    push_str(&mut title, " 的选集列表");
    let mut desc = cat("视频 ", name.as_str());
    push_str(&mut desc, " 的视频选集列表");
    let f = Feed { title, link, description: desc, pub_date: None, items };
    proof {
        let shown = if limit < sv.len() {
            sv.take(limit as int)
        } else {
            sv
        };
        assert(f@.items =~= shown.map_values(
            |p: Json| part_item(p, link@, aid, bvid@, pic@, name@, em),
        ));
    }
    Ok(f)
}

/// Law: a part links to the video's page with `?p=` and the part's `page`
/// number, and is titled by its `part` name.
pub proof fn law_part_link(p: Json, link: Seq<char>, aid: i64, bvid: Seq<char>, pic: Seq<char>, name: Seq<char>, embed: bool)
    ensures
        part_item(p, link, aid, bvid, pic, name, embed).link == Some(
            link + "?p="@ + crate::text::dec_int(crate::routes::bilibili_video::int_of(p, "page"@) as int),
        ),
        part_item(p, link, aid, bvid, pic, name, embed).title == Some(crate::routes::member_str(p, "part"@)),
{
}

} // verus!
