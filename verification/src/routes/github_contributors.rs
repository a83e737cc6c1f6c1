//! `/github_contributors`: the contributors of a GitHub repository.
//!
//! Parameters: `owner`, `repo`, `order` (`asc`, else descending), `anon`
//! (include anonymous contributors), `limit` (default 30, at most 100).
use crate::easyuser::{flag, param, spec_parse_bool, Params};
use crate::feed::{opt_view, Feed, FeedItem, FeedItemView, FeedView};
use crate::github_common::{missing_token_message, owner_repo, rest_request, spec_rest_headers};
use crate::json::{json_as_i64, json_as_str, json_index, parse_usize, spec_parse_usize, Json};
use crate::request_rules::RouteError;
use crate::routes::github_discussions::{escape_html, escape_html_exec};
use crate::routes::{feed_result_is, fetch_result_is, item_views, member_str, member_str_exec, param_or, param_or_exec, Fetch};
use crate::text::{cat, dec, dec_int, i64_to_string, is_empty, push_str, str_eq, u64_to_string};
use vstd::prelude::*;

verus! {

/// The number of contributors asked for: `limit` (default 30), at most 100.
pub open spec fn spec_limit(para: Map<Seq<char>, Seq<char>>) -> usize {
    let n: usize = match param(para, "limit"@) {
        Some(l) => match spec_parse_usize(l) {
            Some(n) => n,
            None => 30,
        },
        None => 30,
    };
    if n < 100 {
        n
    } else {
        100
    }
}

/// The request, or the first failure (owner, repo, token).
pub open spec fn spec_request(para: Map<Seq<char>, Seq<char>>, token: Option<Seq<char>>) -> Result<
    (Seq<char>, Seq<(Seq<char>, Seq<char>)>),
    Seq<char>,
> {
    match param(para, "owner"@) {
        None => Err("Missing owner parameter (repository owner)"@),
        Some(owner) => match param(para, "repo"@) {
            None => Err("Missing repo parameter (repository name)"@),
            Some(repo) => match token {
                None => Err(missing_token_message()),
                Some(t) => Ok(
                    (
                        "https://api.github.com/repos/"@ + owner + "/"@ + repo
                            + "/contributors?per_page="@ + dec(spec_limit(para) as nat) + if spec_parse_bool(
                            param(para, "anon"@),
                            false,
                        ) {
                            "&anon=1"@
                        } else {
                            seq![]
                        },
                        spec_rest_headers(t),
                    ),
                ),
            },
        },
    }
}

/// The request; `token` is the value of `GITHUB_TOKEN`, if set.
pub fn request(para: &Params, token: Option<String>) -> (r: Result<Fetch, RouteError>)
    ensures
        fetch_result_is(r, spec_request(para@, opt_view(token))),
{
    let (owner, repo) = owner_repo(para)?;
    let anon = flag(para, "anon", false);
    let limit: usize = match para.get("limit") {
        Some(l) => match parse_usize(l.as_str()) {
            Some(n) => n,
            None => 30,
        },
        None => 30,
    };
    let limit: usize = if limit < 100 {
        limit
    } else {
        100
    };
    let t = match token {
        Some(t) => t,
        None => {
            return Err(
                RouteError::msg("Environment variable GITHUB_TOKEN is required (GitHub PAT). See docs."),
            );
        },
    };
    let mut url = cat("https://api.github.com/repos/", owner.as_str());
    push_str(&mut url, "/");
    push_str(&mut url, repo.as_str());
    push_str(&mut url, "/contributors?per_page=");
    push_str(&mut url, u64_to_string(limit as u64).as_str());
    let ghost u0 = url@;
    if anon {
        push_str(&mut url, "&anon=1");
    } else {
        assert(url@ =~= u0 + Seq::<char>::empty());
    }
    Ok(rest_request(url.as_str(), t.as_str()))
}

/// The contributions of a contributor (0 where missing).
pub open spec fn contributions(c: Json) -> i64 {
    match json_as_i64(json_index(c, "contributions"@)) {
        Some(n) => n,
        None => 0,
    }
}

fn contributions_exec(c: &Json) -> (r: i64)
    ensures
        r == contributions(*c),
{
    match c.i64_at("contributions") {
        Some(n) => n,
        None => 0,
    }
}

/// `x` put into an ascending list after every element with no more
/// contributions (a stable insertion).
pub open spec fn insert_sorted(sorted: Seq<Json>, x: Json) -> Seq<Json>
    decreases sorted.len(),
{
    if sorted.len() == 0 {
        seq![x]
    } else if contributions(sorted.last()) <= contributions(x) {
        sorted.push(x)
    } else {
        insert_sorted(sorted.drop_last(), x).push(sorted.last())
    }
}

/// The contributors sorted by contributions, ascending; equal ones keep
/// their order (`sort_by` is stable).
pub open spec fn sorted_by_contributions(s: Seq<Json>) -> Seq<Json>
    decreases s.len(),
{
    if s.len() == 0 {
        seq![]
    } else {
        insert_sorted(sorted_by_contributions(s.drop_last()), s.last())
    }
}

proof fn lemma_insert_at(sorted: Seq<Json>, x: Json, pos: int)
    requires
        0 <= pos <= sorted.len(),
        forall|j: int| pos <= j < sorted.len() ==> contributions(#[trigger] sorted[j]) > contributions(x),
        pos == 0 || contributions(sorted[pos - 1]) <= contributions(x),
    ensures
        insert_sorted(sorted, x) == sorted.insert(pos, x),
    decreases sorted.len() - pos,
{
    if pos == sorted.len() {
        if sorted.len() == 0 {
            assert(sorted.insert(pos, x) =~= seq![x]);
        } else {
            assert(sorted.insert(pos, x) =~= sorted.push(x));
        }
    } else {
        let d = sorted.drop_last();
        assert forall|j: int| pos <= j < d.len() implies contributions(#[trigger] d[j])
            > contributions(x) by {
            assert(d[j] == sorted[j]);
        }
        if pos > 0 {
            assert(d[pos - 1] == sorted[pos - 1]);
        }
        lemma_insert_at(d, x, pos);
        assert(sorted.insert(pos, x) =~= d.insert(pos, x).push(sorted.last()));
    }
}

/// Sorts the contributors (see [`sorted_by_contributions`]).
fn sort_contributors<'a>(list: &'a Vec<Json>) -> (r: Vec<&'a Json>)
    ensures
        r@.map_values(|x: &Json| *x) == sorted_by_contributions(list@),
{
    let mut out: Vec<&'a Json> = Vec::new();
    let mut i: usize = 0;
    assert(out@.map_values(|x: &Json| *x) =~= sorted_by_contributions(list@.take(0)));
    while i < list.len()
        invariant
            i <= list.len(),
            out@.map_values(|x: &Json| *x) == sorted_by_contributions(list@.take(i as int)),
        decreases list.len() - i,
    {
        assert(list@.take(i + 1).drop_last() == list@.take(i as int));
        assert(list@.take(i + 1).last() == list@[i as int]);
        let x = &list[i];
        let kx = contributions_exec(x);
        let ghost cur = out@.map_values(|x: &Json| *x);
        let mut pos: usize = out.len();
        while pos > 0 && contributions_exec(out[pos - 1]) > kx
            invariant
                pos <= out.len(),
                cur == out@.map_values(|x: &Json| *x),
                kx == contributions(*x),
                forall|j: int| pos <= j < cur.len() ==> contributions(#[trigger] cur[j]) > kx,
            decreases pos,
        {
            assert(cur[pos - 1] == *out@[pos - 1]);
            pos = pos - 1;
        }
        proof {
            if pos > 0 {
                assert(cur[pos - 1] == *out@[pos - 1]);
            }
            lemma_insert_at(cur, *x, pos as int);
        }
        out.insert(pos, x);
        assert(out@.map_values(|x: &Json| *x) =~= cur.insert(pos as int, *x));
        i = i + 1;
    }
    assert(list@.take(list.len() as int) == list@);
    out
}

/// The item for a contributor: anonymous ones by name and e-mail, others
/// by login, avatar and profile.
#[verifier::opaque]
pub open spec fn contributor_item(c: Json) -> FeedItemView {
    let n = contributions(c);
    let typ = match json_as_str(json_index(c, "type"@)) {
        Some(t) => t,
        None => "User"@,
    };
    if typ == "Anonymous"@ {
        let name = member_str(c, "name"@);
        FeedItemView {
            title: Some("Contributor: "@ + name),
            link: None,
            description: Some(
                "<p>匿名贡献者</p><p>名称: "@ + escape_html(name) + "</p><p>邮箱: "@ + escape_html(
                    member_str(c, "email"@),
                ) + "</p><p>贡献次数: "@ + dec_int(n as int) + "</p>"@,
            ),
            pub_date: None,
            author: Some("contributions: "@ + dec_int(n as int)),
            guid: Some(("anon-"@ + escape_html(name), false)),
            categories: seq![],
        }
    } else {
        let login = member_str(c, "login"@);
        let html_url = member_str(c, "html_url"@);
        FeedItemView {
            title: Some("Contributor: "@ + login),
            link: if html_url.len() == 0 {
                None
            } else {
                Some(html_url)
            },
            description: Some(
                "<img src=\""@ + member_str(c, "avatar_url"@)
                    + "\" referrerpolicy=\"no-referrer\"><p><a href=\""@ + html_url + "\">"@ + login
                    + "</a></p><p>贡献次数: "@ + dec_int(n as int) + "</p>"@,
            ),
            pub_date: None,
            author: Some("contributions: "@ + dec_int(n as int)),
            guid: Some(
                (
                    match json_as_i64(json_index(c, "id"@)) {
                        Some(id) => dec_int(id as int),
                        None => seq![],
                    },
                    false,
                ),
            ),
            categories: seq![],
        }
    }
}

fn contributor_item_exec(c: &Json) -> (r: FeedItem)
    ensures
        r@ == contributor_item(*c),
{
    proof {
        reveal(contributor_item);
        reveal_strlit("User");
        reveal_strlit("Anonymous");
        assert("User"@[0] != "Anonymous"@[0]);
        assert("User"@ != "Anonymous"@);
    }
    let n = contributions_exec(c);
    let ntext = i64_to_string(n);
    let mut author = "contributions: ".to_owned();
    push_str(&mut author, ntext.as_str());
    let anonymous = match c.str_at("type") {
        Some(t) => str_eq(t.as_str(), "Anonymous"),
        None => false,
    };
    if anonymous {
        let name = member_str_exec(c, "name");
        let esc = escape_html_exec(name.as_str());
        let mut d = "<p>匿名贡献者</p><p>名称: ".to_owned();
        push_str(&mut d, esc.as_str());
        push_str(&mut d, "</p><p>邮箱: ");
        push_str(&mut d, escape_html_exec(member_str_exec(c, "email").as_str()).as_str());
        push_str(&mut d, "</p><p>贡献次数: ");
        push_str(&mut d, ntext.as_str());
        push_str(&mut d, "</p>");
        let r = FeedItem {
            title: Some(cat("Contributor: ", name.as_str())),
            link: None,
            description: Some(d),
            pub_date: None,
            author: Some(author),
            guid: Some((cat("anon-", esc.as_str()), false)),
            categories: Vec::new(),
        };
        assert(r@.categories =~= Seq::<Seq<char>>::empty());
        r
    } else {
        let login = member_str_exec(c, "login");
        let html_url = member_str_exec(c, "html_url");
        let mut d = cat("<img src=\"", member_str_exec(c, "avatar_url").as_str());
        push_str(&mut d, "\" referrerpolicy=\"no-referrer\"><p><a href=\"");
        push_str(&mut d, html_url.as_str());
        push_str(&mut d, "\">");
        push_str(&mut d, login.as_str());
        push_str(&mut d, "</a></p><p>贡献次数: ");
        push_str(&mut d, ntext.as_str());
        push_str(&mut d, "</p>");
        let guid = match c.i64_at("id") {
            Some(id) => i64_to_string(id),
            None => String::new(),
        };
        let r = FeedItem {
            title: Some(cat("Contributor: ", login.as_str())),
            link: if is_empty(html_url.as_str()) {
                None
            } else {
                Some(html_url)
            },
            description: Some(d),
            pub_date: None,
            author: Some(author),
            guid: Some((guid, false)),
            categories: Vec::new(),
        };
        assert(r@.categories =~= Seq::<Seq<char>>::empty());
        r
    }
}

/// The contributors in the order shown: by contributions, descending
/// unless `order` is `asc` (a descending list is the ascending one
/// reversed).
pub open spec fn ordered(para: Map<Seq<char>, Seq<char>>, list: Seq<Json>) -> Seq<Json> {
    if param_or(para, "order"@, "desc"@) != "asc"@ {
        sorted_by_contributions(list).reverse()
    } else {
        sorted_by_contributions(list)
    }
}

/// The feed for the API's answer.
pub open spec fn spec_feed(para: Map<Seq<char>, Seq<char>>, owner: Seq<char>, repo: Seq<char>, json: Json) -> Result<
    FeedView,
    Seq<char>,
> {
    match json {
        Json::Array(list) => if list@.len() == 0 {
            Err("No contributors found. Check owner/repo parameters"@)
        } else {
            Ok(
                FeedView {
                    title: "GitHub Contributors - "@ + owner + "/"@ + repo,
                    link: "https://github.com/"@ + owner + "/"@ + repo + "/graphs/contributors"@,
                    description: "New contributors for "@ + owner + "/"@ + repo,
                    pub_date: None,
                    items: ordered(para, list@).map_values(|c: Json| contributor_item(c)),
                },
            )
        },
        _ => Err("GitHub API returned unexpected response"@),
    }
}

/// `get`, after the fetch: the feed for the API's answer.
pub fn build_feed(para: &Params, json: &Json) -> (r: Result<Feed, RouteError>)
    ensures
        match (param(para@, "owner"@), param(para@, "repo"@)) {
            (Some(o), Some(p)) => feed_result_is(r, spec_feed(para@, o, p, *json)),
            _ => r is Err,
        },
{
    let (owner, repo) = owner_repo(para)?;
    let list = match json {
        Json::Array(a) => a,
        _ => {
            return Err(RouteError::msg("GitHub API returned unexpected response"));
        },
    };
    let sorted = sort_contributors(list);
    let order = param_or_exec(para, "order", "desc");
    let desc = !str_eq(order.as_str(), "asc");
    if list.len() == 0 {
        return Err(RouteError::msg("No contributors found. Check owner/repo parameters"));
    }
    let ghost sv = sorted@.map_values(|x: &Json| *x);
    let ghost want = ordered(para@, list@).map_values(|c: Json| contributor_item(c));
    assert(sv.len() == list@.len()) by {
        lemma_sorted_len(list@);
    }
    let mut items: Vec<FeedItem> = Vec::new();
    let mut i: usize = 0;
    assert(item_views(items@) =~= want.take(0));
    while i < sorted.len()
        invariant
            i <= sorted.len(),
            sv == sorted@.map_values(|x: &Json| *x),
            sv == sorted_by_contributions(list@),
            want == ordered(para@, list@).map_values(|c: Json| contributor_item(c)),
            desc == (param_or(para@, "order"@, "desc"@) != "asc"@),
            want.len() == sorted@.len(),
            item_views(items@) == want.take(i as int),
        decreases sorted.len() - i,
    {
        let k = if desc {
            sorted.len() - 1 - i
        } else {
            i
        };
        assert(want[i as int] == contributor_item(sv[k as int]));
        let it = contributor_item_exec(sorted[k]);
        let ghost before = item_views(items@);
        items.push(it);
        assert(item_views(items@) =~= before.push(it@));
        assert(want.take(i + 1) =~= want.take(i as int).push(want[i as int]));
        i = i + 1;
    }
    assert(want.take(sorted.len() as int) == want);
    let mut pair = owner.clone();
    push_str(&mut pair, "/");
    push_str(&mut pair, repo.as_str());
    let title = cat("GitHub Contributors - ", pair.as_str());
    let mut link = cat("https://github.com/", pair.as_str());
    push_str(&mut link, "/graphs/contributors");
    let description = cat("New contributors for ", pair.as_str());
    let ghost s = spec_feed(para@, owner@, repo@, *json);
    assert(s->Ok_0.items == item_views(items@));
    assert(title@ =~= s->Ok_0.title);
    assert(link@ =~= s->Ok_0.link);
    assert(description@ =~= s->Ok_0.description);
    Ok(Feed { title, link, description, pub_date: None, items })
}

proof fn lemma_sorted_len(s: Seq<Json>)
    ensures
        sorted_by_contributions(s).len() == s.len(),
    decreases s.len(),
{
    if s.len() > 0 {
        lemma_sorted_len(s.drop_last());
        lemma_insert_len(sorted_by_contributions(s.drop_last()), s.last());
    }
}

proof fn lemma_insert_len(sorted: Seq<Json>, x: Json)
    ensures
        insert_sorted(sorted, x).len() == sorted.len() + 1,
    decreases sorted.len(),
{
    if sorted.len() > 0 {
        lemma_insert_len(sorted.drop_last(), x);
    }
}

/// Every element of `insert_sorted(sorted, x)` is bounded by `b` when
/// those of `sorted` and `x` are.
proof fn lemma_insert_bounded(sorted: Seq<Json>, x: Json, b: i64)
    requires
        forall|i: int| 0 <= i < sorted.len() ==> contributions(#[trigger] sorted[i]) <= b,
        contributions(x) <= b,
    ensures
        forall|i: int| 0 <= i < insert_sorted(sorted, x).len() ==> contributions(#[trigger] insert_sorted(sorted, x)[i]) <= b,
    decreases sorted.len(),
{
    if sorted.len() > 0 && contributions(sorted.last()) > contributions(x) {
        let d = sorted.drop_last();
        assert forall|i: int| 0 <= i < d.len() implies contributions(#[trigger] d[i]) <= b by {
            assert(d[i] == sorted[i]);
        }
        lemma_insert_bounded(d, x, b);
        let t = insert_sorted(d, x);
        assert forall|i: int| 0 <= i < t.push(sorted.last()).len() implies contributions(#[trigger] t.push(sorted.last())[i]) <= b by {
            if i < t.len() {
                assert(t.push(sorted.last())[i] == t[i]);
            }
        }
    } else if sorted.len() == 0 {
        assert forall|i: int| 0 <= i < seq![x].len() implies contributions(#[trigger] seq![x][i]) <= b by {}
    } else {
        assert forall|i: int| 0 <= i < sorted.push(x).len() implies contributions(#[trigger] sorted.push(x)[i]) <= b by {
            if i < sorted.len() {
                assert(sorted.push(x)[i] == sorted[i]);
            }
        }
    }
}

/// Contributions do not decrease along `s`.
pub open spec fn ascending(s: Seq<Json>) -> bool {
    forall|i: int, j: int| 0 <= i <= j < s.len() ==> contributions(#[trigger] s[i]) <= contributions(#[trigger] s[j])
}

proof fn lemma_insert_sorted(sorted: Seq<Json>, x: Json)
    requires
        ascending(sorted),
    ensures
        ascending(insert_sorted(sorted, x)),
        insert_sorted(sorted, x).to_multiset() == sorted.to_multiset().insert(x),
    decreases sorted.len(),
{
    broadcast use vstd::seq_lib::group_to_multiset_ensures;
    if sorted.len() == 0 {
        assert(seq![x] =~= Seq::<Json>::empty().push(x));
    } else if contributions(sorted.last()) <= contributions(x) {
    } else {
        let d = sorted.drop_last();
        assert(ascending(d));
        lemma_insert_sorted(d, x);
        let t = insert_sorted(d, x);
        assert forall|i: int| 0 <= i < d.len() implies contributions(#[trigger] d[i]) <= contributions(sorted.last()) by {
            assert(d[i] == sorted[i]);
        }
        lemma_insert_bounded(d, x, contributions(sorted.last()));
        assert(t.push(sorted.last()).to_multiset() == t.to_multiset().insert(sorted.last()));
        assert(d.push(sorted.last()) =~= sorted);
        assert(sorted.to_multiset() == d.to_multiset().insert(sorted.last()));
        assert(t.to_multiset().insert(sorted.last()) =~= d.to_multiset().insert(sorted.last()).insert(x));
    }
}

proof fn lemma_sorted_props(s: Seq<Json>)
    ensures
        ascending(sorted_by_contributions(s)),
        sorted_by_contributions(s).to_multiset() == s.to_multiset(),
    decreases s.len(),
{
    broadcast use vstd::seq_lib::group_to_multiset_ensures;
    if s.len() > 0 {
        lemma_sorted_props(s.drop_last());
        lemma_insert_sorted(sorted_by_contributions(s.drop_last()), s.last());
        assert(s.drop_last().push(s.last()) =~= s);
    }
}

proof fn lemma_reverse_multiset(s: Seq<Json>)
    ensures
        s.reverse().to_multiset() == s.to_multiset(),
    decreases s.len(),
{
    broadcast use vstd::seq_lib::group_to_multiset_ensures;
    if s.len() > 0 {
        let d = s.drop_last();
        lemma_reverse_multiset(d);
        assert(s.reverse() =~= seq![s.last()] + d.reverse());
        vstd::seq_lib::lemma_multiset_commutative(seq![s.last()], d.reverse());
        assert(seq![s.last()] =~= Seq::<Json>::empty().push(s.last()));
        assert(d.push(s.last()) =~= s);
        assert(s.to_multiset() =~= d.to_multiset().insert(s.last()));
        assert(seq![s.last()].to_multiset() =~= Seq::<Json>::empty().to_multiset().insert(s.last()));
        assert(seq![s.last()].to_multiset().add(d.reverse().to_multiset()) =~= d.to_multiset().insert(s.last()));
    }
}

/// Law: the contributors shown are those of the answer, each as often as
/// it occurs there, ordered by contributions (missing counts as 0): not
/// increasing unless `order` is `asc`, not decreasing when it is.
pub proof fn law_contributors_ordered(para: Map<Seq<char>, Seq<char>>, list: Seq<Json>)
    ensures
        ordered(para, list).to_multiset() == list.to_multiset(),
        param_or(para, "order"@, "desc"@) == "asc"@ ==> ascending(ordered(para, list)),
        param_or(para, "order"@, "desc"@) != "asc"@ ==> forall|i: int, j: int|
            0 <= i <= j < ordered(para, list).len() ==> contributions(#[trigger] ordered(para, list)[i])
                >= contributions(#[trigger] ordered(para, list)[j]),
{
    let s = sorted_by_contributions(list);
    lemma_sorted_props(list);
    lemma_reverse_multiset(s);
    if param_or(para, "order"@, "desc"@) != "asc"@ {
        assert forall|i: int, j: int| 0 <= i <= j < s.reverse().len() implies contributions(#[trigger] s.reverse()[i])
            >= contributions(#[trigger] s.reverse()[j]) by {
            assert(s.reverse()[i] == s[s.len() - 1 - i]);
            assert(s.reverse()[j] == s[s.len() - 1 - j]);
        }
    }
}

/// Law: a contributor who is not anonymous links to their `html_url`
/// (no link where it is empty) and is titled by their `login`; an
/// anonymous one has no link and is titled by their `name`.
pub proof fn law_contributor_link(c: Json)
    ensures
        ({
            let anon = match crate::json::json_index(c, "type"@) {
                Json::Str(t) => t@ == "Anonymous"@,
                _ => false,
            };
            &&& anon ==> contributor_item(c).link is None && contributor_item(c).title == Some(
                "Contributor: "@ + crate::routes::member_str(c, "name"@),
            )
            &&& !anon ==> contributor_item(c).title == Some("Contributor: "@ + crate::routes::member_str(c, "login"@)) && contributor_item(
                c,
            ).link == if crate::routes::member_str(c, "html_url"@).len() == 0 {
                None
            } else {
                Some(crate::routes::member_str(c, "html_url"@))
            }
        }),
{
    reveal(contributor_item);
    reveal_strlit("User");
    reveal_strlit("Anonymous");
    assert("User"@[0] != "Anonymous"@[0]);
}

} // verus!
