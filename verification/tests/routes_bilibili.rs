use rssust::easyuser::params_to_hashmap;
use rssust::json::{Json, JsonNumber};
use rssust::request_rules::RouteError;
use rssust::routes::bilibili_partion_ranking::hot_request;
use rssust::routes::{
    bilibili_audio_rank, bilibili_bangumi_follow, bilibili_blackroom, bilibili_collection,
    bilibili_followers, bilibili_live_area, bilibili_search_hot, bilibili_splash,
    bilibili_video_page, bilibili_video_reply, bilibili_vsearch,
};

fn conv(v: &serde_json::Value) -> Json {
    match v {
        serde_json::Value::Null => Json::Null,
        serde_json::Value::Bool(b) => Json::Bool(*b),
        serde_json::Value::Number(n) => match (n.as_u64(), n.as_i64()) {
            (Some(u), _) => Json::Number(JsonNumber::PosInt(u)),
            (None, Some(i)) => Json::Number(JsonNumber::NegInt(i)),
            _ => Json::Number(JsonNumber::Float(n.to_string())),
        },
        serde_json::Value::String(s) => Json::Str(s.clone()),
        serde_json::Value::Array(a) => Json::Array(a.iter().map(conv).collect()),
        serde_json::Value::Object(m) => Json::Object(m.iter().map(|(k, v)| (k.clone(), conv(v))).collect()),
    }
}

fn j(text: &str) -> Json {
    conv(&serde_json::from_str(text).unwrap())
}

fn msg<T: std::fmt::Debug>(r: Result<T, RouteError>) -> String {
    match r {
        Err(RouteError::Message(m)) => m,
        other => panic!("unexpected {:?}", other),
    }
}

#[test]
fn audio_rank_picks_the_newest_issue() {
    let periods = j(r#"{"code":0,"data":{"list":{
        "2023":[{"ID":5,"priod":50,"publish_time":1700000000}],
        "2024":[{"ID":7,"priod":60,"publish_time":1710000000},{"ID":8,"priod":61,"publish_time":1720000000}],
        "x":[{"ID":99,"priod":1,"publish_time":1990000000}]}}}"#);
    let l = bilibili_audio_rank::latest(&periods).ok().unwrap();
    assert_eq!((l.id, l.priod, l.time, l.year), (8, 61, 1720000000, 2024));
    let req = bilibili_audio_rank::songs_request(&l);
    assert_eq!(req.url, "https://api.bilibili.com/x/copyright-music-publicity/toplist/music_list?list_id=8");
    let songs = j(r#"{"code":0,"data":{"list":[
        {"rank":1,"music_title":"S","singer":"A","album":"B","heat":9,"can_listen":true,"creation_bvid":"BV1","creation_title":"T","creation_nickname":"N","creation_cover":"c.jpg"},
        {"rank":2,"music_title":"Q","singer":"Z","mv_bvid":"BV2"}]}}"#);
    let f = bilibili_audio_rank::build_feed(&params_to_hashmap("list_type=2"), &l, &songs, "NOW").ok().unwrap();
    assert_eq!(f.title, "B站音频原创榜 - 第61期");
    assert_eq!(f.description, "B站音频原创榜最新一期榜单（共2首）");
    assert_eq!(f.items[0].title.as_deref(), Some("#1 S - A"));
    assert_eq!(f.items[0].link.as_deref(), Some("https://www.bilibili.com/video/BV1"));
    assert_eq!(
        f.items[0].description.as_deref(),
        Some("<img src=\"c.jpg\" referrerpolicy=\"no-referrer\"><br>歌手: A<br>专辑: B<br>热度: 9<br>可听: 是<br>关联视频: <a href=\"https://www.bilibili.com/video/BV1\">T</a>（N）")
    );
    assert_eq!(f.items[1].link.as_deref(), Some("https://www.bilibili.com/video/BV2"));
    assert_eq!(f.items[0].pub_date.as_deref(), Some("Wed, 03 Jul 2024 09:46:40 +0000"));
}

#[test]
fn audio_rank_errors() {
    assert_eq!(msg(bilibili_audio_rank::latest(&j(r#"{"code":-400,"message":"bad"}"#))), "B站API返回错误 code=-400: bad");
    assert_eq!(msg(bilibili_audio_rank::latest(&j(r#"{"message":"x"}"#))), "B站API返回错误 code=-1: x");
    assert_eq!(msg(bilibili_audio_rank::latest(&j(r#"{"code":0,"data":{"list":[]}}"#))), "找不到 data.list 字段或不是对象");
    assert_eq!(msg(bilibili_audio_rank::latest(&j(r#"{"code":0,"data":{"list":{}}}"#))), "找不到音频榜单期数");
    assert_eq!(
        bilibili_audio_rank::periods_request(&params_to_hashmap("list_type=")).url,
        "https://api.bilibili.com/x/copyright-music-publicity/toplist/all_period?list_type=1"
    );
}

#[test]
fn bangumi_follow() {
    let p = params_to_hashmap("vmid=9&ps=");
    let req = bilibili_bangumi_follow::request(&p, Some("c=1".to_string())).ok().unwrap();
    assert_eq!(req.url, "https://api.bilibili.com/x/space/bangumi/follow/list?vmid=9&type=1&pn=1&ps=15");
    assert_eq!(req.headers.len(), 2);
    let json = j(r#"{"code":0,"data":{"list":[{"season_id":3,"title":"T","cover":"c","is_finish":1,"stat":{"follow":12},"new_ep":{"index_show":"第1话","pub_time":"2024-01-02 03:04:05"},"evaluate":"E"}]}}"#);
    let f = bilibili_bangumi_follow::build_feed(&p, &json, "NOW").ok().unwrap();
    assert_eq!(f.title, "9 的 bilibili 追番列表");
    assert_eq!(f.items[0].link.as_deref(), Some("https://www.bilibili.com/bangumi/play/ss3?from_spmid=666.25.0.0"));
    assert_eq!(
        f.items[0].description.as_deref(),
        Some("<img src=\"c\" referrerpolicy=\"no-referrer\"><br>总集数: 连载中<br>状态: 已完结<br>追番人数: 12<br>最新一话: 第1话<br>更新时间: 2024-01-02 03:04:05<br><br>E")
    );
    assert_eq!(f.items[0].pub_date.as_deref(), Some("Tue, 02 Jan 2024 03:04:05 +0800"));
    assert_eq!(msg(bilibili_bangumi_follow::request(&params_to_hashmap(""), None)), "缺少 vmid 参数");
}

#[test]
fn live_area() {
    assert_eq!(msg(bilibili_live_area::plan(&params_to_hashmap("order=online"))), "缺少 area_id 参数（直播分区ID）");
    assert_eq!(msg(bilibili_live_area::plan(&params_to_hashmap("area_id=1"))), "缺少 order 参数（live_time 或 online）");
    assert_eq!(msg(bilibili_live_area::plan(&params_to_hashmap("area_id=1&order=x"))), "order 参数仅支持 live_time 或 online");
    let p = bilibili_live_area::plan(&params_to_hashmap("area_id=86&order=online&page_size=99")).ok().unwrap();
    assert_eq!((p.page_size, p.page_no), (30, 1));
    assert_eq!(
        bilibili_live_area::rooms_request(&p).url,
        "https://api.live.bilibili.com/room/v1/area/getRoomList?area_id=86&sort_type=online&page_size=30&page_no=1"
    );
    let areas = j(r#"{"data":[{"id":2,"name":"网游","list":[{"id":86,"name":"英雄联盟"}]}]}"#);
    let names = bilibili_live_area::find_area(&areas, "86");
    assert_eq!((names.parent.as_str(), names.area.as_str()), ("网游", "英雄联盟"));
    assert_eq!(names.link, "https://live.bilibili.com/p/eden/area-tags?parentAreaId=2&areaId=86");
    let rooms = j(r#"{"data":[{"roomid":5,"uname":"U","title":"T\"x","online":7,"uid":1}]}"#);
    let f = bilibili_live_area::build_feed(&p, &names, &rooms, "NOW").ok().unwrap();
    assert_eq!(f.title, "哔哩哔哩直播-网游·英雄联盟分区-人气直播");
    assert_eq!(f.items[0].guid, Some(("5-T\"x".to_string(), false)));
    let unknown = bilibili_live_area::find_area(&areas, "1");
    let f = bilibili_live_area::build_feed(&p, &unknown, &rooms, "NOW").ok().unwrap();
    assert_eq!(f.title, "哔哩哔哩直播-86分区-人气直播");
    assert_eq!(f.link, "https://live.bilibili.com/");
}

#[test]
fn followers() {
    assert_eq!(msg(bilibili_followers::plan(&params_to_hashmap("vmid=1"), None)), "UP主粉丝列表需要登录态，请先配置 cookies.json (bilibili.com) 中的 Cookie");
    let p = bilibili_followers::plan(&params_to_hashmap("vmid=1&limit=50&pn=2"), Some("c".to_string())).ok().unwrap();
    assert_eq!(bilibili_followers::list_request(&p).url, "https://api.bilibili.com/x/relation/followers?vmid=1&pn=2&ps=20");
    let count = bilibili_followers::follower_count_exec(&j(r#"{"data":{"follower":42}}"#));
    assert_eq!(count, 42);
    let json = j(r#"{"code":0,"data":{"list":[{"mid":7,"uname":"U","sign":"hi","mtime":0}]}}"#);
    let f = bilibili_followers::build_feed(&p, count, &json, "NOW").ok().unwrap();
    assert_eq!(f.items[0].description.as_deref(), Some("U<br>签名: hi<br>当前粉丝总数: 42"));
    assert_eq!(f.items[0].guid, Some(("followers-1-7-0".to_string(), false)));
    match bilibili_followers::list_parse_error("<html>412</html>", "e") {
        RouteError::Message(m) => assert_eq!(m, "B站风控，请检查 cookies.json (bilibili.com) 的 Cookie 是否有效"),
        other => panic!("{:?}", other),
    }
    match bilibili_followers::list_parse_error("oops", "bad json") {
        RouteError::Message(m) => assert_eq!(m, "JSON解析失败: bad json — 响应片段: oops"),
        other => panic!("{:?}", other),
    }
}

#[test]
fn video_page_orders_parts() {
    let json = j(r#"{"data":{"title":"V","pic":"p","aid":1,"pages":[
        {"page":1,"part":"a","cid":10},{"page":3,"part":"c","cid":30},{"page":2,"part":"b","cid":20},{"page":3,"part":"c2","cid":31}]}}"#);
    let f = bilibili_video_page::build_feed(&params_to_hashmap("bvid=BV9&limit=3&disableembed=false"), &json).ok().unwrap();
    let titles: Vec<&str> = f.items.iter().map(|i| i.title.as_deref().unwrap()).collect();
    assert_eq!(titles, vec!["c", "c2", "b"]);
    assert_eq!(f.items[0].link.as_deref(), Some("https://www.bilibili.com/video/BV9?p=3"));
    assert_eq!(f.items[0].description.as_deref(), Some(""));
    assert_eq!(f.title, "视频 V 的选集列表");
    assert_eq!(msg(bilibili_video_page::build_feed(&params_to_hashmap("bvid=x"), &j("{}"))), "找不到 data 字段");
}

#[test]
fn collection() {
    let p = params_to_hashmap("uid=1&sid=2&sortreverse=false&pagesize=3");
    let req = bilibili_collection::request(&p).ok().unwrap();
    assert_eq!(req.url, "https://api.bilibili.com/x/polymer/web-space/seasons_archives_list?mid=1&season_id=2&sort_reverse=0&page_num=1&page_size=3");
    assert_eq!(msg(bilibili_collection::request(&params_to_hashmap("uid=1&sid=2&sortreverse=yes"))), "sortreverse 参数格式错误，应为 true 或 false");
    let list = j(r#"{"code":0,"data":{"aids":[55],"meta":{"name":"Coll"},"archives":[{"aid":55,"bvid":"BVa","pic":"p","title":"T","pubdate":0}]}}"#);
    let a = bilibili_collection::author_request(&p, &list).ok().unwrap();
    assert_eq!(a.url, "https://api.bilibili.com/x/web-interface/view?aid=55");
    assert_eq!(bilibili_collection::author(&j(r#"{"data":{"owner":{"name":"UP"}}}"#)).ok().unwrap(), "UP");
    let f = bilibili_collection::build_feed(&p, &list, "UP", "NOW").ok().unwrap();
    assert_eq!(f.title, "Coll");
    assert_eq!(f.link, "https://www.bilibili.com/video/BVa");
    assert_eq!(f.items[0].title.as_deref(), Some("T"));
    assert_eq!(f.items[0].pub_date.as_deref(), Some("Thu, 01 Jan 1970 00:00:00 +0000"));
    let bad = j(r#"{"code":1}"#);
    assert_eq!(msg(bilibili_collection::author_request(&p, &bad)), "请求失败，{\"code\":1}");
    let no_date = j(r#"{"code":0,"data":{"meta":{"name":"C"},"archives":[{"aid":1,"bvid":"b","pic":"p","title":"t"}]}}"#);
    assert_eq!(msg(bilibili_collection::build_feed(&p, &no_date, "UP", "NOW")), "bilibili_collection无法找到pubdate项");
}

#[test]
fn splash_search_hot_blackroom() {
    let s = bilibili_splash::request(&params_to_hashmap("width=720"));
    assert_eq!(s.url, "https://app.bilibili.com/x/v2/splash/list?build=999999999&mobi_app=android&platform=android&height=1920&width=720&birth=0101");
    let f = bilibili_splash::build_feed(&j(r#"{"code":0,"data":{"list":[{"id":1,"thumb":"t.jpg","is_ad":true,"duration":3,"begin_time":0}]}}"#), "NOW").ok().unwrap();
    assert_eq!(f.items[0].title.as_deref(), Some("B站开屏广告"));
    assert_eq!(f.items[0].link.as_deref(), Some("t.jpg"));
    assert_eq!(f.items[0].description.as_deref(), Some("<img src=\"t.jpg\" referrerpolicy=\"no-referrer\"><br>广告id: 1<br>是否广告: true<br>时长(秒): 3"));
    assert_eq!(bilibili_splash::build_feed(&j(r#"{"code":0}"#), "NOW").ok().unwrap().items.len(), 0);

    let f = bilibili_search_hot::build_feed(&j(r#"{"code":0,"timestamp":0,"list":[{"keyword":"中 文","show_name":"","pos":1,"hot_id":9,"word_type":5}]}"#), "NOW").ok().unwrap();
    assert_eq!(f.items[0].title.as_deref(), Some("#1 中 文"));
    assert_eq!(f.items[0].link.as_deref(), Some("https://search.bilibili.com/all?keyword=%E4%B8%AD%20%E6%96%87"));
    assert_eq!(f.items[0].author.as_deref(), Some("热"));

    let b = bilibili_blackroom::request(&params_to_hashmap(""));
    assert_eq!(b.url, "https://api.bilibili.com/x/credit/blocked/list?btype=&otype=0&pn=1");
    let f = bilibili_blackroom::build_feed(&j(r#"{"code":0,"data":[{"id":77,"uname":"U","uid":3,"punishTitle":""}]}"#), "NOW").ok().unwrap();
    assert_eq!(f.items[0].title.as_deref(), Some("U(3)"));
    assert_eq!(f.items[0].link.as_deref(), Some("https://www.bilibili.com/blackroom/ban#/detail/77"));
}

#[test]
fn video_reply() {
    assert_eq!(bilibili_video_reply::aid_of(&j(r#"{"data":{"aid":12}}"#)).ok(), Some(12));
    assert_eq!(msg(bilibili_video_reply::aid_of(&j("{}"))), "无法从 BVID 获取 AID");
    assert_eq!(bilibili_video_reply::video_name("BV1", None), "BV1");
    assert_eq!(bilibili_video_reply::video_name("BV1", Some(&j(r#"{"data":{"title":"Name"}}"#))), "Name");
    let r = bilibili_video_reply::replies_request("BV1", 12, None);
    assert_eq!(r.url, "https://api.bilibili.com/x/v2/reply?type=1&oid=12&sort=0");
    assert_eq!(r.headers[1], ("Cookie".to_string(), String::new()));
    let f = bilibili_video_reply::build_feed("BV1", "Name", &j(r#"{"data":{"replies":[{"content":{"message":"hi"},"rpid":5,"ctime":0}]}}"#), "NOW");
    assert_eq!(f.items[0].title.as_deref(), Some("未知用户 : hi"));
    assert_eq!(f.items[0].link.as_deref(), Some("https://www.bilibili.com/video/BV1/#reply5"));
    assert_eq!(f.title, "Name 的 评论");
}

#[test]
fn vsearch() {
    let req = bilibili_vsearch::request(&params_to_hashmap("kw=a b"), None).ok().unwrap();
    assert_eq!(req.url, "https://api.bilibili.com/x/web-interface/search/type?search_type=video&highlight=1&keyword=a%20b&order=pubdate&tids=0");
    let json = j(r#"{"data":{"result":[{"title":"<em class=\"k\">Rust</em> &amp; more","pic":"//i0/x.jpg","description":"l1\nl2","tag":"a,b","typename":"T","aid":1,"bvid":"BV"}]}}"#);
    let f = bilibili_vsearch::build_feed(&params_to_hashmap("kw=Rust&disableembed=false"), &json, "NOW").ok().unwrap();
    assert_eq!(f.items[0].title.as_deref(), Some("Rust & more"));
    assert_eq!(f.items[0].categories, vec!["a".to_string(), "b".to_string(), "T".to_string()]);
    assert!(f.items[0].description.as_deref().unwrap().contains("l1<br/>l2<br/><img src=\"http://i0/x.jpg\""));
    assert_eq!(f.description, "Result from Rust bilibili search, ordered by pubdate.");
}

fn window_of(url: &str) -> (String, String) {
    let from = url.split("&time_from=").nth(1).unwrap().split('&').next().unwrap().to_string();
    let to = url.split("&time_to=").nth(1).unwrap().split('&').next().unwrap().to_string();
    (from, to)
}

#[test]
fn partion_ranking_window_follows_days() {
    let f = hot_request(&rssust::easyuser::params_to_hashmap("tid=17&days=3")).ok().unwrap().unwrap();
    let (from, to) = window_of(&f.url);
    let a = chrono::NaiveDate::parse_from_str(&from, "%Y%m%d").unwrap();
    let b = chrono::NaiveDate::parse_from_str(&to, "%Y%m%d").unwrap();
    assert!((b - a).num_days() >= 2 && (b - a).num_days() <= 4);
    for q in ["tid=17&days=0", "tid=17&days=-5"] {
        let f = hot_request(&rssust::easyuser::params_to_hashmap(q)).ok().unwrap().unwrap();
        let (from, to) = window_of(&f.url);
        assert_eq!(from, to);
    }
    assert!(hot_request(&rssust::easyuser::params_to_hashmap("tid=17&days=9000000000000")).ok().unwrap().is_none());
    assert!(hot_request(&rssust::easyuser::params_to_hashmap("days=1")).is_err());
}
