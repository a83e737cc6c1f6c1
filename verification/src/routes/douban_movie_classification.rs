//! `/douban_movie_classification`: Douban's films by tag, above a score.
//!
//! The score comparisons are made on floating-point numbers by the caller,
//! which hands in, for each film, whether it is kept, and the score's text
//! for the title.
use crate::easyuser::{pair_views, Params};
use crate::feed::{opt_view, Feed, FeedItem, FeedItemView, FeedView};
use crate::json::{json_as_array, json_as_str, json_index, ptr_array, Json};
use crate::request_rules::RouteError;
use crate::routes::{get_with_header, member_str, member_str_exec, param_or, param_or_exec, Fetch};
use crate::text::{cat, join, join_exec, push_str, views};
use vstd::prelude::*;

verus! {

/// The API address: the order (`U`) and the tags (none).
pub open spec fn api_url(para: Map<Seq<char>, Seq<char>>) -> Seq<char> {
    "https://movie.douban.com/j/new_search_subjects?sort="@ + param_or(para, "sort"@, "U"@)
        + "&range=0,10&tags="@ + param_or(para, "tags"@, seq![]) + "&start=0"@
}

/// The request, with the tag page as `Referer`.
pub fn request(para: &Params) -> (r: Fetch)
    ensures
        r.url@ == api_url(para@),
        pair_views(r.headers@) == seq![("Referer"@, "https://movie.douban.com/tag/"@)],
{
    proof {
        reveal_strlit("");
        assert(""@ =~= Seq::<char>::empty());
    }
    let mut url = cat(
        "https://movie.douban.com/j/new_search_subjects?sort=",
        param_or_exec(para, "sort", "U").as_str(),
    );
    push_str(&mut url, "&range=0,10&tags=");
    push_str(&mut url, param_or_exec(para, "tags", "").as_str());
    push_str(&mut url, "&start=0");
    get_with_header(url, "Referer", "https://movie.douban.com/tag/")
}

/// The strings of an array, in order (other elements passed over).
pub open spec fn strings_of(a: Seq<Json>) -> Seq<Seq<char>>
    decreases a.len(),
{
    if a.len() == 0 {
        seq![]
    } else {
        let rest = strings_of(a.drop_last());
        match json_as_str(a.last()) {
            Some(s) => rest.push(s),
            None => rest,
        }
    }
}

/// The names of a member array joined with ` / ` (empty where there is no
/// array).
pub open spec fn names(film: Json, key: Seq<char>) -> Seq<char> {
    match json_as_array(json_index(film, key)) {
        Some(a) => join(strings_of(a), " / "@),
        None => seq![],
    }
}

fn names_exec(film: &Json, key: &str) -> (r: String)
    ensures
        r@ == names(*film, key@),
{
    match film.get(key) {
        Some(Json::Array(a)) => {
            let mut v: Vec<String> = Vec::new();
            let mut i: usize = 0;
            assert(a@.take(0) =~= Seq::<Json>::empty());
            assert(views(v@) =~= Seq::<Seq<char>>::empty());
            while i < a.len()
                invariant
                    i <= a.len(),
                    views(v@) == strings_of(a@.take(i as int)),
                decreases a.len() - i,
            {
                assert(a@.take(i + 1).drop_last() =~= a@.take(i as int));
                assert(a@.take(i + 1).last() == a@[i as int]);
                match a[i].as_str() {
                    Some(s) => {
                        let ghost before = views(v@);
                        v.push(s.clone());
                        assert(views(v@) =~= before.push(s@));
                    },
                    None => {},
                }
                i = i + 1;
            }
            assert(a@.take(a.len() as int) =~= a@);
            join_exec(v.as_slice(), " / ")
        },
        _ => String::new(),
    }
}

/// The item of one film.
pub open spec fn film_item(film: Json) -> FeedItemView {
    let title = member_str(film, "title"@);
    FeedItemView {
        title: Some(title),
        link: Some(member_str(film, "url"@)),
        description: Some(
            "标题："@ + title + "<br>评分："@ + member_str(film, "rate"@) + "<br>导演："@ + names(film, "directors"@)
                + "<br>主演："@ + names(film, "casts"@) + "<br><img src=\""@ + member_str(film, "cover"@)
                + "\" referrerpolicy=\"no-referrer\">"@,
        ),
        pub_date: None,
        author: None,
        guid: None,
        categories: seq![],
    }
}

/// The items of the films kept (`keep[i]` false drops the `i`-th film).
pub open spec fn kept_items(films: Seq<Json>, keep: Seq<bool>) -> Seq<FeedItemView>
    decreases films.len(),
{
    if films.len() == 0 {
        seq![]
    } else {
        let i = films.len() - 1;
        let rest = kept_items(films.drop_last(), keep);
        if i < keep.len() && !keep[i] {
            rest
        } else {
            rest.push(film_item(films.last()))
        }
    }
}

/// The feed of the answer, or the failure; `score_text` is the score
/// asked for, written out, where it is above 0.
pub open spec fn spec_feed(json: Json, keep: Seq<bool>, score_text: Option<Seq<char>>) -> Result<FeedView, Seq<char>> {
    match ptr_array(json, "/data"@) {
        None => Err("找不到 data 字段或不是数组"@),
        Some(films) => Ok(
            FeedView {
                title: "豆瓣电影分类"@ + match score_text {
                    Some(s) => "超过 "@ + s + " 分的"@,
                    None => seq![],
                } + "影视"@,
                link: "https://movie.douban.com/tag/#/?sort=U&range=0,10&tags="@,
                description: seq![],
                pub_date: None,
                items: kept_items(films, keep),
            },
        ),
    }
}

fn film_item_exec(film: &Json) -> (r: FeedItem)
    ensures
        r@ == film_item(*film),
{
    let title = member_str_exec(film, "title");
    let mut d = cat("标题：", title.as_str());
    push_str(&mut d, "<br>评分：");
    push_str(&mut d, member_str_exec(film, "rate").as_str());
    push_str(&mut d, "<br>导演：");
    push_str(&mut d, names_exec(film, "directors").as_str());
    push_str(&mut d, "<br>主演：");
    push_str(&mut d, names_exec(film, "casts").as_str());
    push_str(&mut d, "<br><img src=\"");
    push_str(&mut d, member_str_exec(film, "cover").as_str());
    push_str(&mut d, "\" referrerpolicy=\"no-referrer\">");
    let r = FeedItem {
        title: Some(title),
        link: Some(member_str_exec(film, "url")),
        description: Some(d),
        pub_date: None,
        author: None,
        guid: None,
        categories: Vec::new(),
    };
    assert(r@.categories =~= Seq::<Seq<char>>::empty());
    r
}

/// The feed of the answer (see [`spec_feed`]).
pub fn build_feed(json: &Json, keep: &[bool], score_text: Option<String>) -> (r: Result<Feed, RouteError>)
    ensures
        match r {
            Ok(f) => spec_feed(*json, keep@, opt_view(score_text)) == Ok::<_, Seq<char>>(f@),
            Err(RouteError::Message(m)) => spec_feed(*json, keep@, opt_view(score_text)) == Err::<FeedView, _>(m@),
            Err(_) => false,
        },
{
    let films = match json.ptr_array("/data") {
        Some(f) => f,
        None => return Err(RouteError::msg("找不到 data 字段或不是数组")),
    };
    let mut items: Vec<FeedItem> = Vec::new();
    let mut i: usize = 0;
    assert(films@.take(0) =~= Seq::<Json>::empty());
    assert(crate::routes::item_views(items@) =~= Seq::<FeedItemView>::empty());
    while i < films.len()
        invariant
            i <= films.len(),
            crate::routes::item_views(items@) == kept_items(films@.take(i as int), keep@),
        decreases films.len() - i,
    {
        assert(films@.take(i + 1).drop_last() =~= films@.take(i as int));
        assert(films@.take(i + 1).last() == films@[i as int]);
        if !(i < keep.len() && !keep[i]) {
            let it = film_item_exec(&films[i]);
            let ghost iv = it@;
            let ghost before = crate::routes::item_views(items@);
            items.push(it);
            assert(crate::routes::item_views(items@) =~= before.push(iv));
        }
        i = i + 1;
    }
    assert(films@.take(films.len() as int) =~= films@);
    let mut title = "豆瓣电影分类".to_owned();
    match &score_text {
        Some(s) => {
            push_str(&mut title, "超过 ");
            push_str(&mut title, s.as_str());
            push_str(&mut title, " 分的");
        },
        None => {},
    }
    push_str(&mut title, "影视");
    assert(title@ =~= "豆瓣电影分类"@ + match opt_view(score_text) {
        Some(s) => "超过 "@ + s + " 分的"@,
        None => Seq::<char>::empty(),
    } + "影视"@);
    Ok(Feed {
        title,
        link: "https://movie.douban.com/tag/#/?sort=U&range=0,10&tags=".to_owned(),
        description: String::new(),
        pub_date: None,
        items,
    })
}

/// Law: a film links to its `url` and is titled by its `title`.
pub proof fn law_film_link(film: Json)
    ensures
        film_item(film).link == Some(crate::routes::member_str(film, "url"@)),
        film_item(film).title == Some(crate::routes::member_str(film, "title"@)),
{
}

} // verus!
