//! `/douban_book_latest`: new books on Douban, by sub-category.
use crate::easyuser::{pair_views, Params};
use crate::feed::{Feed, FeedItem, FeedItemView, FeedView};
use crate::json::{json_index, Json};
use crate::request_rules::RouteError;
use crate::routes::{
    feed_result_is, get_with_header, item_views, member_str, member_str_exec, nested_str,
    nested_str_exec, param_or, param_or_exec, Fetch,
};
use crate::text::{cat, push_str, str_eq};
use vstd::prelude::*;

verus! {

/// The name of a sub-category (`subcat_name`); `全部` for unknown ones.
pub open spec fn subcat(t: Seq<char>) -> Seq<char> {
    if t == "all"@ {
        "全部"@
    } else if t == "prose_poetry"@ {
        "文学"@
    } else if t == "fiction"@ {
        "小说"@
    } else if t == "history"@ {
        "历史文化"@
    } else if t == "biography"@ {
        "社会纪实"@
    } else if t == "science"@ {
        "科学新知"@
    } else if t == "art"@ {
        "艺术设计"@
    } else if t == "business"@ {
        "商业经管"@
    } else if t == "comics"@ {
        "绘本漫画"@
    } else {
        "全部"@
    }
}

/// `subcat_name`.
pub fn subcat_name(t: &str) -> (r: &'static str)
    ensures
        r@ == subcat(t@),
{
    if str_eq(t, "all") {
        "全部"
    } else if str_eq(t, "prose_poetry") {
        "文学"
    } else if str_eq(t, "fiction") {
        "小说"
    } else if str_eq(t, "history") {
        "历史文化"
    } else if str_eq(t, "biography") {
        "社会纪实"
    } else if str_eq(t, "science") {
        "科学新知"
    } else if str_eq(t, "art") {
        "艺术设计"
    } else if str_eq(t, "business") {
        "商业经管"
    } else if str_eq(t, "comics") {
        "绘本漫画"
    } else {
        "全部"
    }
}

/// The sub-category asked for (default `all`).
pub open spec fn book_type(para: Map<Seq<char>, Seq<char>>) -> Seq<char> {
    param_or(para, "type"@, "all"@)
}

/// The request.
pub fn request(para: &Params) -> (r: Fetch)
    ensures
        r.url@ == "https://m.douban.com/rexxar/api/v2/subject_collection/new_book_"@ + book_type(
            para@,
        ) + "/items?start=0&count=10&mode=collection&for_mobile=1"@,
        pair_views(r.headers@) == seq![("Referer"@, "https://book.douban.com/latest"@)],
{
    let mut url = cat(
        "https://m.douban.com/rexxar/api/v2/subject_collection/new_book_",
        param_or_exec(para, "type", "all").as_str(),
    );
    push_str(&mut url, "/items?start=0&count=10&mode=collection&for_mobile=1");
    get_with_header(url, "Referer", "https://book.douban.com/latest")
}

/// The text of the first card, if the book has cards.
pub open spec fn first_card(item: Json) -> Seq<char> {
    match json_index(item, "cards"@) {
        Json::Array(a) => if a@.len() > 0 {
            member_str(a@[0], "content"@)
        } else {
            seq![]
        },
        _ => seq![],
    }
}

/// The rating shown for the `i`-th book: the written score where it has
/// one, else the reason it has none.
pub open spec fn rate_of(item: Json, rated: Seq<Option<Seq<char>>>, i: int) -> Seq<char> {
    if 0 <= i < rated.len() && rated[i] is Some {
        rated[i]->0
    } else {
        member_str(item, "null_rating_reason"@)
    }
}

/// The item for a book.
#[verifier::opaque]
pub open spec fn book_item(item: Json, rate: Seq<char>) -> FeedItemView {
    let title = member_str(item, "title"@);
    FeedItemView {
        title: Some(title),
        link: Some(member_str(item, "url"@)),
        description: Some(
            "<img src=\""@ + nested_str(item, "pic"@, "normal"@)
                + "\" referrerpolicy=\"no-referrer\"><br>"@ + title + "<br><br>"@ + member_str(
                item,
                "card_subtitle"@,
            ) + "<br><br>"@ + first_card(item) + "<br><br>"@ + rate,
        ),
        pub_date: None,
        author: None,
        guid: None,
        categories: seq![],
    }
}

/// The feed. `rated[i]` is the `i`-th book's score as `{}分` where it has
/// one.
pub open spec fn spec_feed(
    para: Map<Seq<char>, Seq<char>>,
    json: Json,
    rated: Seq<Option<Seq<char>>>,
) -> Result<FeedView, Seq<char>> {
    let t = book_type(para);
    match crate::json::ptr_array(json, "/items"@) {
        None => Err("找不到 items 字段或不是数组"@),
        Some(items) => Ok(
            FeedView {
                title: "豆瓣新书速递"@ + if t == "all"@ {
                    seq![]
                } else {
                    "-"@ + subcat(t)
                },
                link: "https://book.douban.com/latest"@ + if t == "all"@ {
                    seq![]
                } else {
                    "?subcat="@ + subcat(t)
                },
                description: seq![],
                pub_date: None,
                items: Seq::new(
                    items.len(),
                    |i: int| book_item(items[i], rate_of(items[i], rated, i)),
                ),
            },
        ),
    }
}

fn first_card_exec(item: &Json) -> (r: String)
    ensures
        r@ == first_card(*item),
{
    match item.get("cards") {
        Some(Json::Array(a)) => if a.len() > 0 {
            member_str_exec(&a[0], "content")
        } else {
            String::new()
        },
        _ => String::new(),
    }
}

fn book_item_exec(item: &Json, rate: &str) -> (r: FeedItem)
    ensures
        r@ == book_item(*item, rate@),
{
    proof {
        reveal(book_item);
    }
    let title = member_str_exec(item, "title");
    let mut d = cat("<img src=\"", nested_str_exec(item, "pic", "normal").as_str());
    push_str(&mut d, "\" referrerpolicy=\"no-referrer\"><br>");
    push_str(&mut d, title.as_str());
    push_str(&mut d, "<br><br>");
    push_str(&mut d, member_str_exec(item, "card_subtitle").as_str());
    push_str(&mut d, "<br><br>");
    push_str(&mut d, first_card_exec(item).as_str());
    push_str(&mut d, "<br><br>");
    push_str(&mut d, rate);
    let r = FeedItem {
        title: Some(title),
        link: Some(member_str_exec(item, "url")),
        description: Some(d),
        pub_date: None,
        author: None,
        guid: None,
        categories: Vec::new(),
    };
    assert(r@.categories =~= Seq::<Seq<char>>::empty());
    r
}

/// The views of optional texts.
pub open spec fn opt_views(v: Seq<Option<String>>) -> Seq<Option<Seq<char>>> {
    v.map_values(|o: Option<String>| crate::feed::opt_view(o))
}

/// `get`, after the fetch: the feed for the API's answer. `rated[i]` is
/// the `i`-th book's `rating.value` written as `{}分` (`None` where it is
/// not a number).
pub fn build_feed(para: &Params, json: &Json, rated: &[Option<String>]) -> (r: Result<
    Feed,
    RouteError,
>)
    ensures
        feed_result_is(r, spec_feed(para@, *json, opt_views(rated@))),
{
    let list = match json.ptr_array("/items") {
        Some(a) => a,
        None => {
            return Err(RouteError::msg("找不到 items 字段或不是数组"));
        },
    };
    let ghost rv = opt_views(rated@);
    let ghost want = Seq::new(
        list@.len(),
        |i: int| book_item(list@[i], rate_of(list@[i], rv, i)),
    );
    let mut items: Vec<FeedItem> = Vec::new();
    let mut i: usize = 0;
    assert(item_views(items@) =~= want.take(0));
    while i < list.len()
        invariant
            i <= list.len(),
            rv == opt_views(rated@),
            want == Seq::new(list@.len(), |i: int| book_item(list@[i], rate_of(list@[i], rv, i))),
            item_views(items@) == want.take(i as int),
        decreases list.len() - i,
    {
        let rate = if i < rated.len() && rated[i].is_some() {
            match &rated[i] {
                Some(t) => t.clone(),
                None => String::new(),
            }
        } else {
            member_str_exec(&list[i], "null_rating_reason")
        };
        assert(rate@ == rate_of(list@[i as int], rv, i as int));
        let it = book_item_exec(&list[i], rate.as_str());
        let ghost before = item_views(items@);
        items.push(it);
        assert(item_views(items@) =~= before.push(it@));
        assert(want.take(i + 1) =~= want.take(i as int).push(want[i as int]));
        i = i + 1;
    }
    assert(want.take(list.len() as int) == want);
    let t = param_or_exec(para, "type", "all");
    let name = subcat_name(t.as_str());
    let all = str_eq(t.as_str(), "all");
    let mut title = "豆瓣新书速递".to_owned();
    let mut link = "https://book.douban.com/latest".to_owned();
    if !all {
        push_str(&mut title, "-");
        push_str(&mut title, name);
        push_str(&mut link, "?subcat=");
        push_str(&mut link, name);
        assert(title@ =~= "豆瓣新书速递"@ + ("-"@ + name@));
        assert(link@ =~= "https://book.douban.com/latest"@ + ("?subcat="@ + name@));
    } else {
        assert(title@ =~= "豆瓣新书速递"@ + Seq::<char>::empty());
        assert(link@ =~= "https://book.douban.com/latest"@ + Seq::<char>::empty());
    }
    let ghost sv = spec_feed(para@, *json, opt_views(rated@));
    assert(sv->Ok_0.items == item_views(items@));
    Ok(Feed { title, link, description: String::new(), pub_date: None, items })
}

/// Law: a book links to its `url` and is titled by its `title`.
pub proof fn law_book_link(item: Json, rate: Seq<char>)
    ensures
        book_item(item, rate).link == Some(crate::routes::member_str(item, "url"@)),
        book_item(item, rate).title == Some(crate::routes::member_str(item, "title"@)),
{
    reveal(book_item);
}

/// Law: the feed, where there is one, has one item per element of `/items`,
/// in order, each linking to the book's `url`.
pub proof fn law_feed_items(para: Map<Seq<char>, Seq<char>>, json: Json, rated: Seq<Option<Seq<char>>>)
    ensures
        spec_feed(para, json, rated) matches Ok(f) ==> match crate::json::ptr_array(json, "/items"@) {
            Some(list) => f.items.len() == list.len() && forall|i: int|
                0 <= i < list.len() ==> (#[trigger] f.items[i]).link == Some(crate::routes::member_str(list[i], "url"@)),
            None => false,
        },
{
    reveal(book_item);
}

} // verus!
