//! `/github_discussions`: the discussions of a GitHub repository, through
//! the GraphQL API.
//!
//! Parameters: `owner`, `repo`, `state` (open/closed/answered/unanswered/
//! locked/unlocked/all, default open), `category` (a category's name),
//! `limit` (default 20, at most 100). With a category, its id is looked up
//! first.
use crate::dates::{or_else, parse_github_date, rfc3339_rfc2822};
use crate::easyuser::{no_double_quotes, param, Params};
use crate::feed::{opt_view, Feed, FeedItem, FeedItemView, FeedView};
use crate::github_common::{missing_token_message, owner_repo};
use crate::json::{
    json_as_bool, json_as_str, json_index, parse_usize, ptr_array, quote, quoted, spec_parse_usize,
    Json,
};
use crate::request_rules::RouteError;
use crate::routes::{feed_result_is, item_views, member_str, member_str_exec, param_or, param_or_exec};
use crate::text::{
    cat, dec, from_range, is_empty, push_str, replace, replace_str, str_eq, to_chars, trim,
    trim_char, trim_str, u64_to_string,
};
use vstd::prelude::*;

verus! {

/// `escape_html`: `&`, `<`, `>` and `"` as entities.
pub open spec fn escape_html(s: Seq<char>) -> Seq<char> {
    replace(
        replace(replace(replace(s, "&"@, "&amp;"@), "<"@, "&lt;"@), ">"@, "&gt;"@),
        "\""@,
        "&quot;"@,
    )
}

/// `escape_html` (see [`escape_html`]).
pub fn escape_html_exec(s: &str) -> (r: String)
    ensures
        r@ == escape_html(s@),
{
    let a = replace_str(s, "&", "&amp;");
    let b = replace_str(a.as_str(), "<", "&lt;");
    let c = replace_str(b.as_str(), ">", "&gt;");
    replace_str(c.as_str(), "\"", "&quot;")
}

/// The GraphQL state filter for a `state` value: none for `all`, an error
/// for unknown values.
pub open spec fn state_enum(state: Seq<char>) -> Result<Option<Seq<char>>, Seq<char>> {
    if state == "answered"@ {
        Ok(Some("ANSWERED"@))
    } else if state == "unanswered"@ {
        Ok(Some("UNANSWERED"@))
    } else if state == "closed"@ {
        Ok(Some("CLOSED"@))
    } else if state == "open"@ {
        Ok(Some("OPEN"@))
    } else if state == "locked"@ {
        Ok(Some("LOCKED"@))
    } else if state == "unlocked"@ {
        Ok(Some("UNLOCKED"@))
    } else if state == "all"@ {
        Ok(None)
    } else {
        Err("state 参数仅支持 open/closed/answered/unanswered/locked/unlocked/all"@)
    }
}

fn state_enum_exec(state: &str) -> (r: Result<Option<&'static str>, RouteError>)
    ensures
        match r {
            Ok(Some(s)) => state_enum(state@) == Ok::<Option<Seq<char>>, Seq<char>>(Some(s@)),
            Ok(None) => state_enum(state@) == Ok::<Option<Seq<char>>, Seq<char>>(None),
            Err(RouteError::Message(m)) => state_enum(state@) == Err::<Option<Seq<char>>, Seq<char>>(
                m@,
            ),
            Err(_) => false,
        },
{
    if str_eq(state, "answered") {
        Ok(Some("ANSWERED"))
    } else if str_eq(state, "unanswered") {
        Ok(Some("UNANSWERED"))
    } else if str_eq(state, "closed") {
        Ok(Some("CLOSED"))
    } else if str_eq(state, "open") {
        Ok(Some("OPEN"))
    } else if str_eq(state, "locked") {
        Ok(Some("LOCKED"))
    } else if str_eq(state, "unlocked") {
        Ok(Some("UNLOCKED"))
    } else if str_eq(state, "all") {
        Ok(None)
    } else {
        Err(RouteError::msg("state 参数仅支持 open/closed/answered/unanswered/locked/unlocked/all"))
    }
}

/// The number of discussions asked for: `limit` (default 20), at most 100.
pub open spec fn spec_limit(para: Map<Seq<char>, Seq<char>>) -> usize {
    let n: usize = match param(para, "limit"@) {
        Some(l) => match spec_parse_usize(l) {
            Some(n) => n,
            None => 20,
        },
        None => 20,
    };
    if n < 100 {
        n
    } else {
        100
    }
}

/// What the requests need: owner, repo, the token, and the filters without
/// the category; or the first failure, in the order the route checks them
/// (owner, repo, token, state).
pub open spec fn spec_plan(para: Map<Seq<char>, Seq<char>>, token: Option<Seq<char>>) -> Result<
    (Seq<char>, Seq<char>, Seq<char>, Seq<char>),
    Seq<char>,
> {
    match param(para, "owner"@) {
        None => Err("Missing owner parameter (repository owner)"@),
        Some(owner) => match param(para, "repo"@) {
            None => Err("Missing repo parameter (repository name)"@),
            Some(repo) => match token {
                None => Err(missing_token_message()),
                Some(t) => match state_enum(param_or(para, "state"@, "open"@)) {
                    Err(e) => Err(e),
                    Ok(st) => Ok(
                        (
                            owner,
                            repo,
                            t,
                            "first: "@ + dec(spec_limit(para) as nat) + match st {
                                Some(s) => ", states: ["@ + s + "]"@,
                                None => seq![],
                            },
                        ),
                    ),
                },
            },
        },
    }
}

/// The checked parameters of a request.
pub struct Plan {
    pub owner: String,
    pub repo: String,
    pub token: String,
    pub filters: String,
}

/// Checks the parameters (see [`spec_plan`]); `token` is the value of
/// `GITHUB_TOKEN`, if set.
pub fn plan(para: &Params, token: Option<String>) -> (r: Result<Plan, RouteError>)
    ensures
        match r {
            Ok(p) => spec_plan(para@, opt_view(token)) == Ok::<
                (Seq<char>, Seq<char>, Seq<char>, Seq<char>),
                Seq<char>,
            >((p.owner@, p.repo@, p.token@, p.filters@)),
            Err(RouteError::Message(m)) => spec_plan(para@, opt_view(token)) == Err::<
                (Seq<char>, Seq<char>, Seq<char>, Seq<char>),
                Seq<char>,
            >(m@),
            Err(_) => false,
        },
{
    let (owner, repo) = owner_repo(para)?;
    let t = match token {
        Some(t) => t,
        None => {
            return Err(
                RouteError::msg("Environment variable GITHUB_TOKEN is required (GitHub PAT). See docs."),
            );
        },
    };
    let state = param_or_exec(para, "state", "open");
    let st = state_enum_exec(state.as_str())?;
    let limit: usize = match para.get("limit") {
        Some(l) => match parse_usize(l.as_str()) {
            Some(n) => n,
            None => 20,
        },
        None => 20,
    };
    let limit: usize = if limit < 100 {
        limit
    } else {
        100
    };
    let mut filters = cat("first: ", u64_to_string(limit as u64).as_str());
    let ghost f0 = filters@;
    match st {
        Some(s) => {
            push_str(&mut filters, ", states: [");
            push_str(&mut filters, s);
            push_str(&mut filters, "]");
            assert(filters@ =~= f0 + (", states: ["@ + s@ + "]"@));
        },
        None => {
            assert(filters@ =~= f0 + Seq::<char>::empty());
        },
    }
    Ok(Plan { owner, repo, token: t, filters })
}

/// `{"query": q}` as JSON text.
pub open spec fn query_body(q: Seq<char>) -> Seq<char> {
    "{\"query\":"@ + quoted(q) + "}"@
}

fn query_body_exec(q: &str) -> (r: String)
    ensures
        r@ == query_body(q@),
{
    let mut b = cat("{\"query\":", quote(q).as_str());
    push_str(&mut b, "}");
    b
}

/// The category asked for, unless missing or empty.
pub open spec fn category(para: Map<Seq<char>, Seq<char>>) -> Option<Seq<char>> {
    match param(para, "category"@) {
        Some(c) => if c.len() > 0 {
            Some(c)
        } else {
            None
        },
        None => None,
    }
}

/// The body of the request that lists the categories (none without a
/// category).
pub open spec fn spec_category_body(
    para: Map<Seq<char>, Seq<char>>,
    owner: Seq<char>,
    repo: Seq<char>,
) -> Option<Seq<char>> {
    match category(para) {
        None => None,
        Some(_) => Some(
            query_body(
                "{ repository(owner: "@ + quoted(owner) + ", name: "@ + quoted(repo)
                    + ") { discussionCategories(first: 25) { nodes { id name } } } }"@,
            ),
        ),
    }
}

/// The body of the category request, if one is needed.
pub fn category_body(para: &Params, p: &Plan) -> (r: Option<String>)
    ensures
        opt_view(r) == spec_category_body(para@, p.owner@, p.repo@),
{
    match para.get("category") {
        Some(c) => if is_empty(c.as_str()) {
            None
        } else {
            let mut q = cat("{ repository(owner: ", quote(p.owner.as_str()).as_str());
            push_str(&mut q, ", name: ");
            push_str(&mut q, quote(p.repo.as_str()).as_str());
            push_str(&mut q, ") { discussionCategories(first: 25) { nodes { id name } } } }");
            Some(query_body_exec(q.as_str()))
        },
        None => None,
    }
}

/// The id of the category named `name` in the answer: the first node with
/// that name decides (its `id`, if a string).
pub open spec fn spec_category_id(nodes: Seq<Json>, name: Seq<char>) -> Option<Seq<char>>
    decreases nodes.len(),
{
    if nodes.len() == 0 {
        None
    } else if json_as_str(json_index(nodes[0], "name"@)) == Some(name) {
        json_as_str(json_index(nodes[0], "id"@))
    } else {
        spec_category_id(nodes.drop_first(), name)
    }
}

/// The id of the category asked for, from the categories' answer.
pub open spec fn category_id_of(para: Map<Seq<char>, Seq<char>>, answer: Json) -> Option<Seq<char>> {
    match category(para) {
        None => None,
        Some(c) => match ptr_array(answer, "/data/repository/discussionCategories/nodes"@) {
            Some(nodes) => spec_category_id(nodes, c),
            None => None,
        },
    }
}

/// The id of the category asked for (see [`category_id_of`]).
#[verifier::loop_isolation(false)]
pub fn category_id(para: &Params, answer: &Json) -> (r: Option<String>)
    ensures
        opt_view(r) == category_id_of(para@, *answer),
{
    let c = match para.get("category") {
        Some(c) => if is_empty(c.as_str()) {
            return None;
        } else {
            c
        },
        None => {
            return None;
        },
    };
    let nodes = match answer.ptr_array("/data/repository/discussionCategories/nodes") {
        Some(n) => n,
        None => {
            return None;
        },
    };
    let mut i: usize = 0;
    assert(nodes@.skip(0) == nodes@);
    while i < nodes.len()
        invariant
            i <= nodes.len(),
            spec_category_id(nodes@.skip(i as int), c@) == spec_category_id(nodes@, c@),
        decreases nodes.len() - i,
    {
        assert(nodes@.skip(i as int)[0] == nodes@[i as int]);
        assert(nodes@.skip(i as int).drop_first() == nodes@.skip(i + 1));
        let named = match nodes[i].str_at("name") {
            Some(n) => str_eq(n.as_str(), c.as_str()),
            None => false,
        };
        if named {
            return match nodes[i].str_at("id") {
                Some(id) => Some(id.clone()),
                None => None,
            };
        }
        i = i + 1;
    }
    None
}

/// The body of the discussions request.
pub open spec fn spec_discussions_body(
    owner: Seq<char>,
    repo: Seq<char>,
    filters: Seq<char>,
    cat_id: Option<Seq<char>>,
) -> Seq<char> {
    query_body(
        "{ repository(owner: "@ + quoted(owner) + ", name: "@ + quoted(repo) + ") { discussions("@
            + filters + match cat_id {
            Some(id) => ", categoryId: \""@ + id + "\""@,
            None => seq![],
        }
            + ") { nodes { title author { login } createdAt closed isAnswered locked body url } } } }"@,
    )
}

/// The body of the discussions request, with the category's id if found.
pub fn discussions_body(p: &Plan, cat_id: Option<String>) -> (r: String)
    ensures
        r@ == spec_discussions_body(p.owner@, p.repo@, p.filters@, opt_view(cat_id)),
{
    let mut q = cat("{ repository(owner: ", quote(p.owner.as_str()).as_str());
    push_str(&mut q, ", name: ");
    push_str(&mut q, quote(p.repo.as_str()).as_str());
    push_str(&mut q, ") { discussions(");
    push_str(&mut q, p.filters.as_str());
    let ghost q0 = q@;
    match &cat_id {
        Some(id) => {
            push_str(&mut q, ", categoryId: \"");
            push_str(&mut q, id.as_str());
            push_str(&mut q, "\"");
            assert(q@ =~= q0 + (", categoryId: \""@ + id@ + "\""@));
        },
        None => {
            assert(q@ =~= q0 + Seq::<char>::empty());
        },
    }
    push_str(
        &mut q,
        ") { nodes { title author { login } createdAt closed isAnswered locked body url } } } }",
    );
    query_body_exec(q.as_str())
}

/// The first `n` characters (or all).
pub open spec fn take_chars(s: Seq<char>, n: int) -> Seq<char> {
    if s.len() <= n {
        s
    } else {
        s.take(n)
    }
}

/// The item for a discussion: its text (trimmed, at most 2000 characters,
/// escaped) in `<pre>`, and whether it is closed or locked.
#[verifier::opaque]
pub open spec fn discussion_item(d: Json, now: Seq<char>) -> FeedItemView {
    let body = trim(member_str(d, "body"@));
    let url = member_str(d, "url"@);
    let desc = (if body.len() > 0 {
        "<pre>"@ + escape_html(take_chars(body, 2000)) + "</pre>"@
    } else {
        seq![]
    }) + (if json_as_bool(json_index(d, "closed"@)) == Some(true) {
        "<br>状态: 已关闭"@
    } else {
        seq![]
    }) + (if json_as_bool(json_index(d, "locked"@)) == Some(true) {
        "<br>状态: 已锁定"@
    } else {
        seq![]
    });
    FeedItemView {
        title: Some(trim_char(member_str(d, "title"@), '"')),
        link: Some(url),
        description: if desc.len() == 0 {
            None
        } else {
            Some(desc)
        },
        pub_date: Some(or_else(rfc3339_rfc2822(member_str(d, "createdAt"@)), now)),
        author: Some(
            match json_as_str(json_index(json_index(d, "author"@), "login"@)) {
                Some(a) => a,
                None => "ghost"@,
            },
        ),
        guid: Some((url, false)),
        categories: seq![],
    }
}

fn discussion_item_exec(d: &Json, now: &str) -> (r: FeedItem)
    ensures
        r@ == discussion_item(*d, now@),
{
    proof {
        reveal(discussion_item);
    }
    let body = trim_str(member_str_exec(d, "body").as_str());
    let url = member_str_exec(d, "url");
    let mut desc = String::new();
    if !is_empty(body.as_str()) {
        let v = to_chars(body.as_str());
        let n: usize = if v.len() <= 2000 {
            v.len()
        } else {
            2000
        };
        let head = from_range(v.as_slice(), 0, n);
        assert(head@ == take_chars(body@, 2000));
        push_str(&mut desc, "<pre>");
        push_str(&mut desc, escape_html_exec(head.as_str()).as_str());
        push_str(&mut desc, "</pre>");
    }
    let ghost d1 = desc@;
    if d.bool_at("closed") == Some(true) {
        push_str(&mut desc, "<br>状态: 已关闭");
    } else {
        assert(desc@ =~= d1 + Seq::<char>::empty());
    }
    let ghost d2 = desc@;
    if d.bool_at("locked") == Some(true) {
        push_str(&mut desc, "<br>状态: 已锁定");
    } else {
        assert(desc@ =~= d2 + Seq::<char>::empty());
    }
    assert(desc@ =~= (if body@.len() > 0 {
        "<pre>"@ + escape_html(take_chars(body@, 2000)) + "</pre>"@
    } else {
        seq![]
    }) + (if json_as_bool(json_index(*d, "closed"@)) == Some(true) {
        "<br>状态: 已关闭"@
    } else {
        seq![]
    }) + (if json_as_bool(json_index(*d, "locked"@)) == Some(true) {
        "<br>状态: 已锁定"@
    } else {
        seq![]
    }));
    let null = Json::Null;
    let author_obj = match d.get("author") {
        Some(a) => a,
        None => &null,
    };
    let author = match author_obj.str_at("login") {
        Some(a) => a.clone(),
        None => "ghost".to_owned(),
    };
    let r = FeedItem {
        title: Some(no_double_quotes(member_str_exec(d, "title"))),
        link: Some(url.clone()),
        description: if is_empty(desc.as_str()) {
            None
        } else {
            Some(desc)
        },
        pub_date: Some(parse_github_date(member_str_exec(d, "createdAt").as_str(), now)),
        author: Some(author),
        guid: Some((url, false)),
        categories: Vec::new(),
    };
    assert(r@.categories =~= Seq::<Seq<char>>::empty());
    r
}

/// The feed for the discussions' answer.
pub open spec fn spec_feed(
    para: Map<Seq<char>, Seq<char>>,
    owner: Seq<char>,
    repo: Seq<char>,
    json: Json,
    now: Seq<char>,
) -> Result<FeedView, Seq<char>> {
    match ptr_array(json, "/data/repository/discussions/nodes"@) {
        None => Err("GraphQL 返回缺少 data.repository.discussions.nodes"@),
        Some(nodes) => if nodes.len() == 0 {
            Err(
                "No discussions found for "@ + owner + "/"@ + repo + " (state="@ + param_or(
                    para,
                    "state"@,
                    "open"@,
                ) + ")"@,
            )
        } else {
            Ok(
                FeedView {
                    title: "GitHub Discussions - "@ + owner + "/"@ + repo,
                    link: "https://github.com/"@ + owner + "/"@ + repo + "/discussions"@,
                    description: "GitHub repository "@ + owner + "/"@ + repo + " discussions"@,
                    pub_date: None,
                    items: nodes.map_values(|d: Json| discussion_item(d, now)),
                },
            )
        },
    }
}

/// `get`, after the fetches: the feed for the discussions' answer; `now`
/// is the current time in RSS form.
pub fn build_feed(para: &Params, p: &Plan, json: &Json, now: &str) -> (r: Result<
    Feed,
    RouteError,
>)
    ensures
        feed_result_is(r, spec_feed(para@, p.owner@, p.repo@, *json, now@)),
{
    let nodes = match json.ptr_array("/data/repository/discussions/nodes") {
        Some(n) => n,
        None => {
            return Err(RouteError::msg("GraphQL 返回缺少 data.repository.discussions.nodes"));
        },
    };
    let pair = {
        let mut x = p.owner.clone();
        push_str(&mut x, "/");
        push_str(&mut x, p.repo.as_str());
        x
    };
    if nodes.len() == 0 {
        let mut m = cat("No discussions found for ", pair.as_str());
        push_str(&mut m, " (state=");
        push_str(&mut m, param_or_exec(para, "state", "open").as_str());
        push_str(&mut m, ")");
        assert(m@ =~= "No discussions found for "@ + p.owner@ + "/"@ + p.repo@ + " (state="@
            + param_or(para@, "state"@, "open"@) + ")"@);
        return Err(RouteError::Message(m));
    }
    let ghost want = nodes@.map_values(|d: Json| discussion_item(d, now@));
    let mut items: Vec<FeedItem> = Vec::new();
    let mut i: usize = 0;
    assert(item_views(items@) =~= want.take(0));
    while i < nodes.len()
        invariant
            i <= nodes.len(),
            want == nodes@.map_values(|d: Json| discussion_item(d, now@)),
            item_views(items@) == want.take(i as int),
        decreases nodes.len() - i,
    {
        let it = discussion_item_exec(&nodes[i], now);
        let ghost before = item_views(items@);
        items.push(it);
        assert(item_views(items@) =~= before.push(it@));
        assert(want.take(i + 1) =~= want.take(i as int).push(want[i as int]));
        i = i + 1;
    }
    assert(want.take(nodes.len() as int) == want);
    let mut link = cat("https://github.com/", pair.as_str());
    push_str(&mut link, "/discussions");
    let mut description = cat("GitHub repository ", pair.as_str());
    push_str(&mut description, " discussions");
    let title = cat("GitHub Discussions - ", pair.as_str());
    let ghost sv = spec_feed(para@, p.owner@, p.repo@, *json, now@);
    assert(sv->Ok_0.items == item_views(items@));
    assert(title@ =~= sv->Ok_0.title);
    assert(link@ =~= sv->Ok_0.link);
    assert(description@ =~= sv->Ok_0.description);
    Ok(
        Feed {
            title,
            link,
            description,
            pub_date: None,
            items,
        },
    )
}

/// Law: a discussion links to its `url` and is titled by its `title`.
pub proof fn law_discussion_link(d: Json, now: Seq<char>)
    ensures
        discussion_item(d, now).link == Some(crate::routes::member_str(d, "url"@)),
        discussion_item(d, now).title == Some(crate::text::trim_char(crate::routes::member_str(d, "title"@), '"')),
{
    reveal(discussion_item);
}

/// Law: a discussion is dated by its `createdAt`, written by its author's
/// `login` (`ghost` where there is none) and known by its `url`.
pub proof fn law_discussion_fields(d: Json, now: Seq<char>)
    ensures
        discussion_item(d, now).pub_date == Some(or_else(rfc3339_rfc2822(crate::routes::member_str(d, "createdAt"@)), now)),
        discussion_item(d, now).author == Some(
            match crate::json::json_index(crate::json::json_index(d, "author"@), "login"@) {
                Json::Str(a) => a@,
                _ => "ghost"@,
            },
        ),
        discussion_item(d, now).guid == Some((crate::routes::member_str(d, "url"@), false)),
{
    reveal(discussion_item);
}

} // verus!
