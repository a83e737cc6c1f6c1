//! `/douban_book_rank`: Douban's weekly popular books, of one kind or of
//! both (fiction first).
use crate::easyuser::{pair_views, Params};
use crate::feed::{Feed, FeedItem, FeedItemView, FeedView};
use crate::json::{ptr_array, Json};

use crate::routes::douban_book_latest::opt_views;
use crate::routes::{get_with_header, member_str, member_str_exec, nested_str, nested_str_exec, param_or, param_or_exec, Fetch};
use crate::text::{cat, is_empty, push_str, str_eq};
use vstd::prelude::*;

verus! {

/// The kind asked for (empty: both).
pub open spec fn book_type(para: Map<Seq<char>, Seq<char>>) -> Seq<char> {
    param_or(para, "type"@, seq![])
}

/// The list page of the kind, sent as `Referer` and used as the feed's link.
pub open spec fn referer(t: Seq<char>) -> Seq<char> {
    "https://m.douban.com/book/"@ + t
}

/// The address of a kind's list.
pub open spec fn list_url(kind: Seq<char>) -> Seq<char> {
    "https://m.douban.com/rexxar/api/v2/subject_collection/book_"@ + kind + "/items?start=0&count=10"@
}

/// The kinds whose lists are asked, in order.
pub open spec fn kinds(t: Seq<char>) -> Seq<Seq<char>> {
    if t.len() > 0 {
        seq![t]
    } else {
        seq!["fiction"@, "nonfiction"@]
    }
}

fn list_request(kind: &str, referer: &str) -> (r: Fetch)
    ensures
        r.url@ == list_url(kind@),
        pair_views(r.headers@) == seq![("Referer"@, referer@)],
{
    let mut url = cat("https://m.douban.com/rexxar/api/v2/subject_collection/book_", kind);
    push_str(&mut url, "/items?start=0&count=10");
    get_with_header(url, "Referer", referer)
}

/// The requests: one per kind asked, each with the list page as `Referer`.
pub fn requests(para: &Params) -> (r: Vec<Fetch>)
    ensures
        r@.len() == kinds(book_type(para@)).len(),
        forall|i: int| 0 <= i < r@.len() ==> (#[trigger] r@[i]).url@ == list_url(kinds(book_type(para@))[i])
            && pair_views(r@[i].headers@) == seq![("Referer"@, referer(book_type(para@)))],
{
    proof {
        reveal_strlit("");
        assert(""@ =~= Seq::<char>::empty());
    }
    let t = param_or_exec(para, "type", "");
    let r = cat("https://m.douban.com/book/", t.as_str());
    let mut out: Vec<Fetch> = Vec::new();
    if !is_empty(t.as_str()) {
        out.push(list_request(t.as_str(), r.as_str()));
    } else {
        out.push(list_request("fiction", r.as_str()));
        out.push(list_request("nonfiction", r.as_str()));
    }
    out
}

/// The books of one answer (none where it lists none).
pub open spec fn books_of(answer: Json) -> Seq<Json> {
    match ptr_array(answer, "/subject_collection_items"@) {
        Some(a) => a,
        None => seq![],
    }
}

/// The books of all answers, in order.
pub open spec fn all_books(answers: Seq<Json>) -> Seq<Json>
    decreases answers.len(),
{
    if answers.len() == 0 {
        seq![]
    } else {
        all_books(answers.drop_last()) + books_of(answers.last())
    }
}

/// The rating shown for the `i`-th book: what the caller wrote for its
/// numeric `rating.value`, else the reason it has none.
pub open spec fn rate_of(book: Json, rated: Seq<Option<Seq<char>>>, i: int) -> Seq<char> {
    if 0 <= i < rated.len() && rated[i] is Some {
        rated[i]->0
    } else {
        member_str(book, "null_rating_reason"@)
    }
}

/// The item of one book.
pub open spec fn book_item(book: Json, rate: Seq<char>) -> FeedItemView {
    let title = member_str(book, "title"@);
    let info = member_str(book, "info"@);
    FeedItemView {
        title: Some(title + "-"@ + info),
        link: Some(member_str(book, "url"@)),
        description: Some(
            "<img src=\""@ + nested_str(book, "cover"@, "url"@) + "\" referrerpolicy=\"no-referrer\"><br>"@
                + title + " / "@ + info + " / "@ + rate,
        ),
        pub_date: None,
        author: None,
        guid: None,
        categories: seq![],
    }
}

/// The kind's name.
pub open spec fn kind_name(t: Seq<char>) -> Seq<char> {
    if t == "fiction"@ {
        "虚构类"@
    } else if t == "nonfiction"@ {
        "非虚构类"@
    } else {
        "全部"@
    }
}

/// The feed of the answers.
pub open spec fn spec_feed(para: Map<Seq<char>, Seq<char>>, answers: Seq<Json>, rated: Seq<Option<Seq<char>>>) -> FeedView {
    let books = all_books(answers);
    FeedView {
        title: "豆瓣热门图书-"@ + kind_name(book_type(para)),
        link: referer(book_type(para)),
        description: "每周一更新"@,
        pub_date: None,
        items: Seq::new(books.len(), |i: int| book_item(books[i], rate_of(books[i], rated, i))),
    }
}

fn book_item_exec(book: &Json, rate: &str) -> (r: FeedItem)
    ensures
        r@ == book_item(*book, rate@),
{
    let title = member_str_exec(book, "title");
    let info = member_str_exec(book, "info");
    let mut t = cat(title.as_str(), "-");
    push_str(&mut t, info.as_str());
    let mut d = cat("<img src=\"", nested_str_exec(book, "cover", "url").as_str());
    push_str(&mut d, "\" referrerpolicy=\"no-referrer\"><br>");
    push_str(&mut d, title.as_str());
    push_str(&mut d, " / ");
    push_str(&mut d, info.as_str());
    push_str(&mut d, " / ");
    push_str(&mut d, rate);
    let r = FeedItem {
        title: Some(t),
        link: Some(member_str_exec(book, "url")),
        description: Some(d),
        pub_date: None,
        author: None,
        guid: None,
        categories: Vec::new(),
    };
    assert(r@.categories =~= Seq::<Seq<char>>::empty());
    r
}

/// The feed of the answers (see [`spec_feed`]), one per request of
/// [`requests`], in order; `rated[i]` is the `i`-th book's `rating.value`
/// written as `{:.1}分` (`None` where it is not a number).
pub fn build_feed(para: &Params, answers: &[Json], rated: &[Option<String>]) -> (r: Feed)
    ensures
        r@ == spec_feed(para@, answers@, opt_views(rated@)),
{
    let ghost rv = opt_views(rated@);
    let mut items: Vec<FeedItem> = Vec::new();
    let mut k: usize = 0;
    let mut a: usize = 0;
    assert(all_books(answers@.take(0)) =~= Seq::<Json>::empty());
    while a < answers.len()
        invariant
            a <= answers.len(),
            rv == opt_views(rated@),
            k == all_books(answers@.take(a as int)).len(),
            items.len() == k,
            forall|j: int| 0 <= j < k ==> #[trigger] items@[j]@ == book_item(
                all_books(answers@.take(a as int))[j],
                rate_of(all_books(answers@.take(a as int))[j], rv, j),
            ),
        decreases answers.len() - a,
    {
        let ghost prev = all_books(answers@.take(a as int));
        assert(answers@.take(a + 1).drop_last() =~= answers@.take(a as int));
        assert(answers@.take(a + 1).last() == answers@[a as int]);
        let ghost next = all_books(answers@.take(a + 1));
        assert(next == prev + books_of(answers@[a as int]));
        let empty: Vec<Json> = Vec::new();
        let books = match answers[a].ptr_array("/subject_collection_items") {
            Some(v) => v,
            None => &empty,
        };
        assert(books@ == books_of(answers@[a as int]));
        let mut b: usize = 0;
        while b < books.len()
            invariant
                b <= books.len(),
                rv == opt_views(rated@),
                next == prev + books@,
                k == prev.len() + b,
                items.len() == k,
                forall|j: int| 0 <= j < k ==> #[trigger] items@[j]@ == book_item(next[j], rate_of(next[j], rv, j)),
            decreases books.len() - b,
        {
            let rate = if k < rated.len() && rated[k].is_some() {
                match &rated[k] {
                    Some(t) => t.clone(),
                    None => String::new(),
                }
            } else {
                member_str_exec(&books[b], "null_rating_reason")
            };
            assert(next[k as int] == books@[b as int]);
            assert(rate@ == rate_of(next[k as int], rv, k as int));
            items.push(book_item_exec(&books[b], rate.as_str()));
            k = items.len();
            b = b + 1;
        }
        proof {
            assert forall|j: int| 0 <= j < k implies #[trigger] items@[j]@ == book_item(
                next[j],
                rate_of(next[j], rv, j),
            ) by {}
        }
        a = a + 1;
    }
    assert(answers@.take(answers.len() as int) =~= answers@);
    proof {
        reveal_strlit("");
        assert(""@ =~= Seq::<char>::empty());
    }
    let t = param_or_exec(para, "type", "");
    let name = if str_eq(t.as_str(), "fiction") {
        "虚构类"
    } else if str_eq(t.as_str(), "nonfiction") {
        "非虚构类"
    } else {
        "全部"
    };
    let f = Feed {
        title: cat("豆瓣热门图书-", name),
        link: cat("https://m.douban.com/book/", t.as_str()),
        description: "每周一更新".to_owned(),
        pub_date: None,
        items,
    };
    let ghost books = all_books(answers@);
    assert(f@.items =~= Seq::new(books.len(), |i: int| book_item(books[i], rate_of(books[i], rv, i))));
    f
}

/// Law: a book links to its `url` and is titled by its `title` and `info`.
pub proof fn law_book_link(book: Json, rate: Seq<char>)
    ensures
        book_item(book, rate).link == Some(crate::routes::member_str(book, "url"@)),
        book_item(book, rate).title == Some(crate::routes::member_str(book, "title"@) + "-"@ + crate::routes::member_str(book, "info"@)),
{
}

} // verus!
