//! `/bilibili_live_area`: the live rooms of a bilibili live area. The list
//! of areas is asked first, for the area's names; the rooms second.
use crate::easyuser::{param, Params};
use crate::feed::{Feed, FeedItem, FeedItemView, FeedView};
use crate::json::{json_as_array, json_as_i64, json_index, parse_usize, ptr_array, spec_parse_usize, Json};
use crate::request_rules::RouteError;
use crate::routes::bilibili_video::{int_of, int_of_exec};
use crate::routes::{get_with_header, member_str, member_str_exec, param_nonempty_or, Fetch};
use crate::text::{cat, dec, dec_int, i64_to_string, is_empty, push_str, str_eq, trim_char, u64_to_string};
use vstd::prelude::*;

verus! {

/// What the request asks for: area, order, page size (at most 30) and
/// page, with the order's title.
#[derive(Debug)]
pub struct LivePlan {
    pub area_id: String,
    pub order: String,
    pub page_size: usize,
    pub page_no: usize,
    pub order_title: String,
}

/// A parameter read as a `usize`, or `default`.
pub open spec fn usize_param(para: Map<Seq<char>, Seq<char>>, k: Seq<char>, default: usize) -> usize {
    match param(para, k) {
        Some(v) => match spec_parse_usize(v) {
            Some(n) => n,
            None => default,
        },
        None => default,
    }
}

/// What the parameters ask for, or the failure.
pub open spec fn spec_plan(para: Map<Seq<char>, Seq<char>>) -> Result<
    (Seq<char>, Seq<char>, usize, usize, Seq<char>),
    Seq<char>,
> {
    let area = param_nonempty_or(para, "area_id"@, seq![]);
    let order = param_nonempty_or(para, "order"@, seq![]);
    if area.len() == 0 {
        Err("缺少 area_id 参数（直播分区ID）"@)
    } else if order.len() == 0 {
        Err("缺少 order 参数（live_time 或 online）"@)
    } else {
        let size = usize_param(para, "page_size"@, 30);
        let size = if size < 30 {
            size
        } else {
            30usize
        };
        let page = usize_param(para, "page_no"@, 1);
        if order == "live_time"@ {
            Ok((area, order, size, page, "最新开播"@))
        } else if order == "online"@ {
            Ok((area, order, size, page, "人气直播"@))
        } else {
            Err("order 参数仅支持 live_time 或 online"@)
        }
    }
}

fn usize_param_exec(para: &Params, k: &str, default: usize) -> (r: usize)
    ensures
        r == usize_param(para@, k@, default),
{
    match para.get(k) {
        Some(v) => match parse_usize(v.as_str()) {
            Some(n) => n,
            None => default,
        },
        None => default,
    }
}

/// What the parameters ask for (see [`spec_plan`]).
pub fn plan(para: &Params) -> (r: Result<LivePlan, RouteError>)
    ensures
        match r {
            Ok(p) => spec_plan(para@) == Ok::<_, Seq<char>>(
                (p.area_id@, p.order@, p.page_size, p.page_no, p.order_title@),
            ),
            Err(RouteError::Message(m)) => spec_plan(para@) == Err::<
                (Seq<char>, Seq<char>, usize, usize, Seq<char>),
                _,
            >(m@),
            Err(_) => false,
        },
{
    let area = crate::routes::param_nonempty_or_exec(para, "area_id", "");
    let order = crate::routes::param_nonempty_or_exec(para, "order", "");
    proof {
        reveal_strlit("");
        assert(""@ =~= Seq::<char>::empty());
    }
    if is_empty(area.as_str()) {
        return Err(RouteError::msg("缺少 area_id 参数（直播分区ID）"));
    }
    if is_empty(order.as_str()) {
        return Err(RouteError::msg("缺少 order 参数（live_time 或 online）"));
    }
    let size = usize_param_exec(para, "page_size", 30);
    let size = if size < 30 {
        size
    } else {
        30
    };
    let page = usize_param_exec(para, "page_no", 1);
    let title = if str_eq(order.as_str(), "live_time") {
        "最新开播"
    } else if str_eq(order.as_str(), "online") {
        "人气直播"
    } else {
        return Err(RouteError::msg("order 参数仅支持 live_time 或 online"));
    };
    Ok(LivePlan { area_id: area, order, page_size: size, page_no: page, order_title: title.to_owned() })
}

/// The page the site's area list is asked from, sent as `Referer`.
pub open spec fn area_referer() -> Seq<char> {
    "https://live.bilibili.com/p/eden/area-tags"@
}

/// The request for the list of areas.
pub fn areas_request() -> (r: Fetch)
    ensures
        r.url@ == "https://api.live.bilibili.com/room/v1/Area/getList"@,
        crate::easyuser::pair_views(r.headers@) == seq![("Referer"@, area_referer())],
{
    get_with_header(
        "https://api.live.bilibili.com/room/v1/Area/getList".to_owned(),
        "Referer",
        "https://live.bilibili.com/p/eden/area-tags",
    )
}

/// The area's entry names `area_id`: its `id`, written in decimal, is it.
pub open spec fn is_area(area: Json, area_id: Seq<char>) -> bool {
    json_as_i64(json_index(area, "id"@)) matches Some(n) && dec_int(n as int) == area_id
}

/// The first entry of `list` that is the area.
pub open spec fn first_area(list: Seq<Json>, area_id: Seq<char>) -> Option<Json>
    decreases list.len(),
{
    if list.len() == 0 {
        None
    } else if is_area(list[0], area_id) {
        Some(list[0])
    } else {
        first_area(list.drop_first(), area_id)
    }
}

/// What one parent area gives: where its list holds the area, the
/// parent's name, the area's name and the area page; else what was found
/// before.
pub open spec fn parent_step(parent: Json, area_id: Seq<char>, st: (Seq<char>, Seq<char>, Seq<char>)) -> (
    Seq<char>,
    Seq<char>,
    Seq<char>,
) {
    match json_as_array(json_index(parent, "list"@)) {
        Some(list) => match first_area(list, area_id) {
            Some(a) => (
                member_str(parent, "name"@),
                member_str(a, "name"@),
                "https://live.bilibili.com/p/eden/area-tags?parentAreaId="@ + dec_int(
                    int_of(parent, "id"@) as int,
                ) + "&areaId="@ + area_id,
            ),
            None => st,
        },
        None => st,
    }
}

/// The parents looked at in order, stopping once a parent's name was
/// found.
pub open spec fn scan_parents(ps: Seq<Json>, area_id: Seq<char>, st: (Seq<char>, Seq<char>, Seq<char>)) -> (
    Seq<char>,
    Seq<char>,
    Seq<char>,
)
    decreases ps.len(),
{
    if ps.len() == 0 {
        st
    } else {
        let st2 = parent_step(ps[0], area_id, st);
        if st2.0.len() > 0 {
            st2
        } else {
            scan_parents(ps.drop_first(), area_id, st2)
        }
    }
}

/// The parent's name, the area's name and the area page (all empty where
/// the area is not listed).
pub open spec fn area_names(areas: Json, area_id: Seq<char>) -> (Seq<char>, Seq<char>, Seq<char>) {
    match ptr_array(areas, "/data"@) {
        Some(ps) => scan_parents(ps, area_id, (seq![], seq![], seq![])),
        None => (seq![], seq![], seq![]),
    }
}

/// The names of an area (see [`area_names`]).
#[derive(Debug)]
pub struct AreaNames {
    pub parent: String,
    pub area: String,
    pub link: String,
}

fn first_area_exec<'a>(list: &'a Vec<Json>, area_id: &str) -> (r: Option<&'a Json>)
    ensures
        match r {
            Some(a) => first_area(list@, area_id@) == Some(*a),
            None => first_area(list@, area_id@) is None,
        },
{
    let mut i: usize = 0;
    assert(list@.skip(0) =~= list@);
    while i < list.len()
        invariant
            i <= list.len(),
            first_area(list@, area_id@) == first_area(list@.skip(i as int), area_id@),
        decreases list.len() - i,
    {
        assert(list@.skip(i as int)[0] == list@[i as int]);
        assert(list@.skip(i as int).drop_first() =~= list@.skip(i + 1));
        let hit = match list[i].i64_at("id") {
            Some(n) => str_eq(i64_to_string(n).as_str(), area_id),
            None => false,
        };
        if hit {
            return Some(&list[i]);
        }
        i = i + 1;
    }
    assert(list@.skip(i as int) =~= Seq::<Json>::empty());
    None
}

/// The names of the area in the area list (see [`area_names`]).
pub fn find_area(areas: &Json, area_id: &str) -> (r: AreaNames)
    ensures
        (r.parent@, r.area@, r.link@) == area_names(*areas, area_id@),
{
    let mut st = AreaNames { parent: String::new(), area: String::new(), link: String::new() };
    let ps = match areas.ptr_array("/data") {
        Some(ps) => ps,
        None => return st,
    };
    let ghost target = area_names(*areas, area_id@);
    let mut i: usize = 0;
    assert(ps@.skip(0) =~= ps@);
    assert(st.parent@ =~= Seq::<char>::empty() && st.area@ =~= Seq::<char>::empty()
        && st.link@ =~= Seq::<char>::empty());
    while i < ps.len()
        invariant
            i <= ps.len(),
            target == scan_parents(ps@.skip(i as int), area_id@, (st.parent@, st.area@, st.link@)),
            target == area_names(*areas, area_id@),
        decreases ps.len() - i,
    {
        assert(ps@.skip(i as int)[0] == ps@[i as int]);
        assert(ps@.skip(i as int).drop_first() =~= ps@.skip(i + 1));
        let parent = &ps[i];
        let ghost st_old = (st.parent@, st.area@, st.link@);
        assert(target == scan_parents(ps@.skip(i as int), area_id@, st_old));
        match parent.get("list") {
            Some(l) => match l.as_array() {
                Some(list) => match first_area_exec(list, area_id) {
                    Some(a) => {
                        let mut link = cat(
                            "https://live.bilibili.com/p/eden/area-tags?parentAreaId=",
                            i64_to_string(int_of_exec(parent, "id")).as_str(),
                        );
                        push_str(&mut link, "&areaId=");
                        push_str(&mut link, area_id);
                        st = AreaNames {
                            parent: member_str_exec(parent, "name"),
                            area: member_str_exec(a, "name"),
                            link,
                        };
                    },
                    None => {},
                },
                None => {},
            },
            None => {},
        }
        assert((st.parent@, st.area@, st.link@) == parent_step(ps@[i as int], area_id@, st_old));
        if !is_empty(st.parent.as_str()) {
            assert(target == (st.parent@, st.area@, st.link@));
            return st;
        }
        i = i + 1;
    }
    assert(ps@.skip(i as int) =~= Seq::<Json>::empty());
    st
}

/// The address of the area's rooms.
pub open spec fn rooms_url(p: (Seq<char>, Seq<char>, usize, usize, Seq<char>)) -> Seq<char> {
    "https://api.live.bilibili.com/room/v1/area/getRoomList?area_id="@ + p.0 + "&sort_type="@ + p.1
        + "&page_size="@ + dec(p.2 as nat) + "&page_no="@ + dec(p.3 as nat)
}

/// The request for the area's rooms.
pub fn rooms_request(p: &LivePlan) -> (r: Fetch)
    ensures
        r.url@ == rooms_url((p.area_id@, p.order@, p.page_size, p.page_no, p.order_title@)),
        crate::easyuser::pair_views(r.headers@) == seq![("Referer"@, area_referer())],
{
    let mut url = cat(
        "https://api.live.bilibili.com/room/v1/area/getRoomList?area_id=",
        p.area_id.as_str(),
    );
    push_str(&mut url, "&sort_type=");
    push_str(&mut url, p.order.as_str());
    push_str(&mut url, "&page_size=");
    push_str(&mut url, u64_to_string(p.page_size as u64).as_str());
    push_str(&mut url, "&page_no=");
    push_str(&mut url, u64_to_string(p.page_no as u64).as_str());
    get_with_header(url, "Referer", "https://live.bilibili.com/p/eden/area-tags")
}

/// The area's title: its name (or its id) after the parent's name where
/// known, and the order's title.
pub open spec fn display_title(names: (Seq<char>, Seq<char>, Seq<char>), area_id: Seq<char>, order_title: Seq<char>) -> Seq<char> {
    let area = if names.1.len() == 0 {
        area_id
    } else {
        names.1
    };
    if names.0.len() == 0 {
        area + "分区-"@ + order_title
    } else {
        names.0 + "·"@ + area + "分区-"@ + order_title
    }
}

/// The item of one room, dated `now`.
pub open spec fn room_item(room: Json, area_title: Seq<char>, now: Seq<char>) -> FeedItemView {
    let uname = member_str(room, "uname"@);
    let title = member_str(room, "title"@);
    let roomid = dec_int(int_of(room, "roomid"@) as int);
    FeedItemView {
        title: Some(trim_char(uname + " "@ + title, '"')),
        link: Some("https://live.bilibili.com/"@ + roomid),
        description: Some(
            "主播: "@ + uname + " (UID "@ + dec_int(int_of(room, "uid"@) as int) + ")<br>在线人数: "@
                + dec_int(int_of(room, "online"@) as int) + "<br>分区: "@ + area_title,
        ),
        pub_date: Some(now),
        author: Some(uname),
        guid: Some((roomid + "-"@ + title, false)),
        categories: seq![],
    }
}

/// The feed of the rooms, or the failure.
pub open spec fn spec_feed(
    p: (Seq<char>, Seq<char>, usize, usize, Seq<char>),
    names: (Seq<char>, Seq<char>, Seq<char>),
    json: Json,
    now: Seq<char>,
) -> Result<FeedView, Seq<char>> {
    match ptr_array(json, "/data"@) {
        None => Err("找不到 data 字段或不是数组"@),
        Some(list) => {
            let area_title = if names.1.len() == 0 {
                p.0
            } else {
                names.1
            };
            let t = "哔哩哔哩直播-"@ + display_title(names, p.0, p.4);
            Ok(
                FeedView {
                    title: t,
                    link: if names.2.len() == 0 {
                        "https://live.bilibili.com/"@
                    } else {
                        names.2
                    },
                    description: t,
                    pub_date: None,
                    items: list.map_values(|r: Json| room_item(r, area_title, now)),
                },
            )
        },
    }
}

fn room_item_exec(room: &Json, area_title: &str, now: &str) -> (r: FeedItem)
    ensures
        r@ == room_item(*room, area_title@, now@),
{
    let uname = member_str_exec(room, "uname");
    let title = member_str_exec(room, "title");
    let roomid = i64_to_string(int_of_exec(room, "roomid"));
    let mut t = cat(uname.as_str(), " ");
    push_str(&mut t, title.as_str());
    let mut d = cat("主播: ", uname.as_str());
    push_str(&mut d, " (UID ");
    push_str(&mut d, i64_to_string(int_of_exec(room, "uid")).as_str());
    push_str(&mut d, ")<br>在线人数: ");
    push_str(&mut d, i64_to_string(int_of_exec(room, "online")).as_str());
    push_str(&mut d, "<br>分区: ");
    push_str(&mut d, area_title);
    let mut g = cat(roomid.as_str(), "-");
    push_str(&mut g, title.as_str());
    let r = FeedItem {
        title: Some(crate::easyuser::no_double_quotes(t)),
        link: Some(cat("https://live.bilibili.com/", roomid.as_str())),
        description: Some(d),
        pub_date: Some(now.to_owned()),
        author: Some(uname),
        guid: Some((g, false)),
        categories: Vec::new(),
    };
    assert(r@.categories =~= Seq::<Seq<char>>::empty());
    r
}

/// The feed of the rooms (see [`spec_feed`]).
pub fn build_feed(p: &LivePlan, names: &AreaNames, json: &Json, now: &str) -> (r: Result<Feed, RouteError>)
    ensures
        match r {
            Ok(f) => spec_feed(
                (p.area_id@, p.order@, p.page_size, p.page_no, p.order_title@),
                (names.parent@, names.area@, names.link@),
                *json,
                now@,
            ) == Ok::<_, Seq<char>>(f@),
            Err(RouteError::Message(m)) => spec_feed(
                (p.area_id@, p.order@, p.page_size, p.page_no, p.order_title@),
                (names.parent@, names.area@, names.link@),
                *json,
                now@,
            ) == Err::<FeedView, _>(m@),
            Err(_) => false,
        },
{
    let list = match json.ptr_array("/data") {
        Some(v) => v,
        None => return Err(RouteError::msg("找不到 data 字段或不是数组")),
    };
    let area_title = if is_empty(names.area.as_str()) {
        p.area_id.clone()
    } else {
        names.area.clone()
    };
    let mut items: Vec<FeedItem> = Vec::new();
    let mut i: usize = 0;
    while i < list.len()
        invariant
            i <= list.len(),
            items.len() == i,
            forall|j: int| 0 <= j < i ==> #[trigger] items@[j]@ == room_item(list@[j], area_title@, now@),
        decreases list.len() - i,
    {
        items.push(room_item_exec(&list[i], area_title.as_str(), now));
        i = i + 1;
    }
    let mut display = if is_empty(names.parent.as_str()) {
        String::new()
    } else {
        cat(names.parent.as_str(), "·")
    };
    push_str(&mut display, area_title.as_str());
    push_str(&mut display, "分区-");
    push_str(&mut display, p.order_title.as_str());
    let t = cat("哔哩哔哩直播-", display.as_str());
    let link = if is_empty(names.link.as_str()) {
        "https://live.bilibili.com/".to_owned()
    } else {
        names.link.clone()
    };
    let f = Feed { title: t.clone(), link, description: t, pub_date: None, items };
    assert(f@.items =~= list@.map_values(|r: Json| room_item(r, area_title@, now@)));
    Ok(f)
}

/// Law: a room links to the live page of its `roomid`, is written by its
/// `uname` and dated `now`.
pub proof fn law_room_link(room: Json, area_title: Seq<char>, now: Seq<char>)
    ensures
        room_item(room, area_title, now).link == Some(
            "https://live.bilibili.com/"@ + crate::text::dec_int(crate::routes::bilibili_video::int_of(room, "roomid"@) as int),
        ),
        room_item(room, area_title, now).author == Some(crate::routes::member_str(room, "uname"@)),
        room_item(room, area_title, now).pub_date == Some(now),
{
}

/// Law: the feed, where there is one, has one item per element of
/// `/data`, in order, each linking to the live page of the room's `roomid`.
pub proof fn law_feed_items(p: (Seq<char>, Seq<char>, usize, usize, Seq<char>), names: (Seq<char>, Seq<char>, Seq<char>), json: Json, now: Seq<char>)
    ensures
        spec_feed(p, names, json, now) matches Ok(f) ==> match crate::json::ptr_array(json, "/data"@) {
            Some(list) => f.items.len() == list.len() && forall|i: int|
                0 <= i < list.len() ==> (#[trigger] f.items[i]).link == Some("https://live.bilibili.com/"@ + crate::text::dec_int(crate::routes::bilibili_video::int_of(list[i], "roomid"@) as int)),
            None => false,
        },
{
}

/// Law: a room is titled by its `uname` and `title`.
pub proof fn law_room_title(room: Json, area_title: Seq<char>, now: Seq<char>)
    ensures
        room_item(room, area_title, now).title == Some(
            crate::text::trim_char(crate::routes::member_str(room, "uname"@) + " "@ + crate::routes::member_str(room, "title"@), '"'),
        ),
{
}

} // verus!
