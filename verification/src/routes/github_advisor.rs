//! `/github_advisor`: the GitHub Advisory Database (`GET /advisories`).
//!
//! Parameters: `type` (default `reviewed`), `ecosystem` (default all),
//! `limit` (default 20, at most 50).
use crate::dates::{or_else, rfc3339_rfc2822, rfc3339_to_rss};
use crate::easyuser::{param, Params};
use crate::feed::{Feed, FeedItem, FeedItemView, FeedView};
use crate::json::{json_as_str, json_index, parse_usize, spec_parse_usize, Json};
use crate::request_rules::RouteError;
use crate::routes::{feed_result_is, item_views, param_or, param_or_exec};
use crate::text::{
    cat, dec, is_empty, join, join_exec, lines, lines_exec, push_str, starts_with, to_chars,
    from_range, to_uppercase_str, trim, trim_str, u64_to_string, unicode_upper, views,
};
use vstd::prelude::*;

verus! {

// ---------------------------------------------------------------------------
// Markdown
// ---------------------------------------------------------------------------

/// Closes an open list.
pub open spec fn close_list(html: Seq<char>, in_list: bool) -> Seq<char> {
    if in_list {
        html + "</ul>"@
    } else {
        html
    }
}

/// One line of markdown: blank lines close a list; `### ` and `## ` lines
/// are headings, `- ` lines list items, other lines paragraphs.
pub open spec fn md_line(state: (Seq<char>, bool), line: Seq<char>) -> (Seq<char>, bool) {
    let html = state.0;
    let in_list = state.1;
    let t = trim(line);
    if t.len() == 0 {
        (close_list(html, in_list), false)
    } else if "### "@.is_prefix_of(t) {
        (close_list(html, in_list) + "<h3>"@ + t.skip(4) + "</h3>"@, false)
    } else if "## "@.is_prefix_of(t) {
        (close_list(html, in_list) + "<h2>"@ + t.skip(3) + "</h2>"@, false)
    } else if "- "@.is_prefix_of(t) {
        ((if in_list {
            html
        } else {
            html + "<ul>"@
        }) + "<li>"@ + t.skip(2) + "</li>"@, true)
    } else {
        (close_list(html, in_list) + "<p>"@ + t + "</p>"@, false)
    }
}

/// The lines read in order.
pub open spec fn md_lines(ls: Seq<Seq<char>>) -> (Seq<char>, bool)
    decreases ls.len(),
{
    if ls.len() == 0 {
        (seq![], false)
    } else {
        md_line(md_lines(ls.drop_last()), ls.last())
    }
}

/// `render_markdown`: the small markdown subset of advisory texts as HTML.
#[verifier::opaque]
pub open spec fn markdown_html(s: Seq<char>) -> Seq<char> {
    let st = md_lines(lines(s));
    close_list(st.0, st.1)
}

/// `render_markdown` (see [`markdown_html`]).
#[verifier::loop_isolation(false)]
pub fn render_markdown(s: &str) -> (r: String)
    ensures
        r@ == markdown_html(s@),
{
    proof {
        reveal(markdown_html);
        reveal_strlit("### ");
        reveal_strlit("## ");
        reveal_strlit("- ");
    }
    let ls = lines_exec(s);
    let ghost lv = views(ls@);
    let mut html = String::new();
    let mut in_list = false;
    let mut i: usize = 0;
    assert(lv.take(0) == Seq::<Seq<char>>::empty());
    while i < ls.len()
        invariant
            i <= ls.len(),
            lv == views(ls@),
            lv == lines(s@),
            (html@, in_list) == md_lines(lv.take(i as int)),
        decreases ls.len() - i,
    {
        assert(lv.take(i + 1).drop_last() == lv.take(i as int));
        assert(lv.take(i + 1).last() == ls@[i as int]@);
        let t = trim_str(ls[i].as_str());
        let tv = to_chars(t.as_str());
        if is_empty(t.as_str()) {
            if in_list {
                push_str(&mut html, "</ul>");
            }
            in_list = false;
        } else if starts_with(t.as_str(), "### ") {
            if in_list {
                push_str(&mut html, "</ul>");
            }
            in_list = false;
            push_str(&mut html, "<h3>");
            push_str(&mut html, from_range(tv.as_slice(), 4, tv.len()).as_str());
            push_str(&mut html, "</h3>");
        } else if starts_with(t.as_str(), "## ") {
            if in_list {
                push_str(&mut html, "</ul>");
            }
            in_list = false;
            push_str(&mut html, "<h2>");
            push_str(&mut html, from_range(tv.as_slice(), 3, tv.len()).as_str());
            push_str(&mut html, "</h2>");
        } else if starts_with(t.as_str(), "- ") {
            if !in_list {
                push_str(&mut html, "<ul>");
            }
            in_list = true;
            push_str(&mut html, "<li>");
            push_str(&mut html, from_range(tv.as_slice(), 2, tv.len()).as_str());
            push_str(&mut html, "</li>");
        } else {
            if in_list {
                push_str(&mut html, "</ul>");
            }
            in_list = false;
            push_str(&mut html, "<p>");
            push_str(&mut html, t.as_str());
            push_str(&mut html, "</p>");
        }
        i = i + 1;
    }
    assert(lv.take(ls.len() as int) == lv);
    if in_list {
        push_str(&mut html, "</ul>");
    }
    html
}

// ---------------------------------------------------------------------------
// The request and the feed
// ---------------------------------------------------------------------------

/// The number of advisories asked for: `limit` as a number (default 20),
/// at most 50.
pub open spec fn spec_limit(para: Map<Seq<char>, Seq<char>>) -> usize {
    let n: usize = match param(para, "limit"@) {
        Some(l) => match spec_parse_usize(l) {
            Some(n) => n,
            None => 20,
        },
        None => 20,
    };
    if n < 50 {
        n
    } else {
        50
    }
}

/// The API address.
pub open spec fn api_url(para: Map<Seq<char>, Seq<char>>) -> Seq<char> {
    let eco = param_or(para, "ecosystem"@, seq![]);
    "https://api.github.com/advisories?type="@ + param_or(para, "type"@, "reviewed"@)
        + "&per_page="@ + dec(spec_limit(para) as nat) + if eco.len() > 0 {
        "&ecosystem="@ + eco
    } else {
        seq![]
    }
}

/// The API address for the parameters (see [`api_url`]); it is fetched
/// with the REST headers of `github_common`.
pub fn request_url(para: &Params) -> (r: String)
    ensures
        r@ == api_url(para@),
{
    proof {
        reveal_strlit("");
        assert(""@ =~= Seq::<char>::empty());
    }
    let limit: usize = match para.get("limit") {
        Some(l) => match parse_usize(l.as_str()) {
            Some(n) => n,
            None => 20,
        },
        None => 20,
    };
    let limit: usize = if limit < 50 {
        limit
    } else {
        50
    };
    let mut url = cat(
        "https://api.github.com/advisories?type=",
        param_or_exec(para, "type", "reviewed").as_str(),
    );
    push_str(&mut url, "&per_page=");
    push_str(&mut url, u64_to_string(limit as u64).as_str());
    let eco = param_or_exec(para, "ecosystem", "");
    if !is_empty(eco.as_str()) {
        push_str(&mut url, "&ecosystem=");
        push_str(&mut url, eco.as_str());
    }
    url
}

/// A string member, or `default`.
pub open spec fn str_or(v: Json, key: Seq<char>, default: Seq<char>) -> Seq<char> {
    match json_as_str(json_index(v, key)) {
        Some(s) => s,
        None => default,
    }
}

/// The references that are strings.
pub open spec fn refs_of(refs: Seq<Json>) -> Seq<Seq<char>>
    decreases refs.len(),
{
    if refs.len() == 0 {
        seq![]
    } else {
        refs_of(refs.drop_last()) + match json_as_str(refs.last()) {
            Some(u) => seq![u],
            None => seq![],
        }
    }
}

/// The affected packages, as `name (range)`, for those with a name.
pub open spec fn pkgs_of(vulns: Seq<Json>) -> Seq<Seq<char>>
    decreases vulns.len(),
{
    if vulns.len() == 0 {
        seq![]
    } else {
        let v = vulns.last();
        let pkg = str_or(json_index(v, "package"@), "name"@, seq![]);
        pkgs_of(vulns.drop_last()) + if pkg.len() > 0 {
            seq![pkg + " ("@ + str_or(v, "vulnerable_version_range"@, seq![]) + ")"@]
        } else {
            seq![]
        }
    }
}

/// The elements of an array member (none for other values).
pub open spec fn array_of(v: Json, key: Seq<char>) -> Seq<Json> {
    match json_index(v, key) {
        Json::Array(a) => a@,
        _ => seq![],
    }
}

/// The reference links of the description.
pub open spec fn ref_links(refs: Seq<Seq<char>>) -> Seq<char>
    decreases refs.len(),
{
    if refs.len() == 0 {
        seq![]
    } else {
        ref_links(refs.drop_last()) + "<br><a href=\""@ + refs.last() + "\">"@ + refs.last()
            + "</a>"@
    }
}

/// The description of an advisory, `cvss` its score as written.
#[verifier::opaque]
pub open spec fn advisory_description(adv: Json, cvss: Seq<char>) -> Seq<char> {
    let pkgs = pkgs_of(array_of(adv, "vulnerabilities"@));
    let refs = refs_of(array_of(adv, "references"@));
    let text = str_or(adv, "description"@, seq![]);
    "GHSA: "@ + str_or(adv, "ghsa_id"@, seq![]) + "<br>CVE: "@ + str_or(adv, "cve_id"@, seq![])
        + "<br>Severity: "@ + str_or(adv, "severity"@, "unknown"@) + "<br>CVSS: "@ + cvss
        + "<br>Published: "@ + str_or(adv, "published_at"@, seq![]) + "<br>"@ + (if pkgs.len()
        > 0 {
        "Affected: "@ + join(pkgs, ", "@) + "<br>"@
    } else {
        seq![]
    }) + (if text.len() > 0 {
        markdown_html(text)
    } else {
        seq![]
    }) + (if refs.len() > 0 {
        "<br>References:"@ + ref_links(refs)
    } else {
        seq![]
    })
}

/// The item for an advisory.
#[verifier::opaque]
pub open spec fn advisory_item(adv: Json, cvss: Seq<char>, now: Seq<char>) -> FeedItemView {
    let ghsa = str_or(adv, "ghsa_id"@, seq![]);
    let summary = str_or(adv, "summary"@, seq![]);
    let html_url = str_or(adv, "html_url"@, seq![]);
    FeedItemView {
        title: Some(
            if summary.len() == 0 {
                ghsa
            } else {
                "["@ + unicode_upper(str_or(adv, "severity"@, "unknown"@)) + "] "@ + summary
            },
        ),
        link: Some(html_url),
        description: Some(advisory_description(adv, cvss)),
        pub_date: Some(or_else(rfc3339_rfc2822(str_or(adv, "published_at"@, seq![])), now)),
        author: Some("GitHub Advisory Database"@),
        guid: Some(
            (
                if ghsa.len() == 0 {
                    html_url
                } else {
                    ghsa
                },
                false,
            ),
        ),
        categories: seq![],
    }
}

/// The CVSS text of the `i`-th advisory: as given, or `0.0`.
pub open spec fn cvss_at(cvss: Seq<Seq<char>>, i: int) -> Seq<char> {
    if 0 <= i < cvss.len() {
        cvss[i]
    } else {
        "0.0"@
    }
}

/// The feed: an error for an answer that is not a list, or for an empty
/// list.
pub open spec fn spec_feed(
    para: Map<Seq<char>, Seq<char>>,
    json: Json,
    cvss: Seq<Seq<char>>,
    now: Seq<char>,
) -> Result<FeedView, Seq<char>> {
    match json {
        Json::Array(advs) => if advs@.len() == 0 {
            Err("No advisories found"@)
        } else {
            let eco = param_or(para, "ecosystem"@, seq![]);
            Ok(
                FeedView {
                    title: "GitHub Advisory Database - "@ + param_or(para, "type"@, "reviewed"@) + (
                    if eco.len() > 0 {
                        " - "@ + eco
                    } else {
                        seq![]
                    }),
                    link: "https://github.com/advisories"@,
                    description: "Security advisories from the GitHub Advisory Database"@,
                    pub_date: None,
                    items: Seq::new(
                        advs@.len(),
                        |i: int| advisory_item(advs@[i], cvss_at(cvss, i), now),
                    ),
                },
            )
        },
        _ => Err("GitHub API returned unexpected response"@),
    }
}

fn str_or_exec(v: &Json, key: &str, default: &str) -> (r: String)
    ensures
        r@ == str_or(*v, key@, default@),
{
    match v.str_at(key) {
        Some(s) => s.clone(),
        None => default.to_owned(),
    }
}

fn array_of_exec<'a>(v: &'a Json, key: &str) -> (r: &'a [Json])
    ensures
        r@ == array_of(*v, key@),
{
    match v.get(key) {
        Some(Json::Array(a)) => a.as_slice(),
        _ => &[],
    }
}

fn refs_exec(adv: &Json) -> (r: Vec<String>)
    ensures
        views(r@) == refs_of(array_of(*adv, "references"@)),
{
    let refs_src = array_of_exec(adv, "references");
    let mut refs: Vec<String> = Vec::new();
    let mut i: usize = 0;
    assert(views(refs@) =~= refs_of(refs_src@.take(0)));
    while i < refs_src.len()
        invariant
            i <= refs_src.len(),
            views(refs@) == refs_of(refs_src@.take(i as int)),
        decreases refs_src.len() - i,
    {
        assert(refs_src@.take(i + 1).drop_last() == refs_src@.take(i as int));
        assert(refs_src@.take(i + 1).last() == refs_src@[i as int]);
        if let Some(u) = refs_src[i].as_str() {
            let ghost before = views(refs@);
            refs.push(u.clone());
            assert(views(refs@) =~= before.push(u@));
        } else {
            assert(refs_of(refs_src@.take(i + 1)) =~= refs_of(refs_src@.take(i as int)));
        }
        i = i + 1;
    }
    assert(refs_src@.take(refs_src.len() as int) == refs_src@);
    refs
}

fn pkg_entry(v: &Json) -> (r: Option<String>)
    ensures
        ({
            let pkg = str_or(json_index(*v, "package"@), "name"@, seq![]);
            match r {
                Some(e) => pkg.len() > 0 && e@ == pkg + " ("@ + str_or(
                    *v,
                    "vulnerable_version_range"@,
                    seq![],
                ) + ")"@,
                None => pkg.len() == 0,
            }
        }),
{
    proof {
        reveal_strlit("");
        assert(""@ =~= Seq::<char>::empty());
    }
    let null = Json::Null;
    let package = match v.get("package") {
        Some(p) => p,
        None => &null,
    };
    let pkg = str_or_exec(package, "name", "");
    if is_empty(pkg.as_str()) {
        return None;
    }
    let mut e = pkg;
    push_str(&mut e, " (");
    push_str(&mut e, str_or_exec(v, "vulnerable_version_range", "").as_str());
    push_str(&mut e, ")");
    Some(e)
}

fn pkgs_exec(adv: &Json) -> (r: Vec<String>)
    ensures
        views(r@) == pkgs_of(array_of(*adv, "vulnerabilities"@)),
{
    let vulns = array_of_exec(adv, "vulnerabilities");
    let mut pkgs: Vec<String> = Vec::new();
    let mut k: usize = 0;
    assert(views(pkgs@) =~= pkgs_of(vulns@.take(0)));
    while k < vulns.len()
        invariant
            k <= vulns.len(),
            views(pkgs@) == pkgs_of(vulns@.take(k as int)),
        decreases vulns.len() - k,
    {
        assert(vulns@.take(k + 1).drop_last() == vulns@.take(k as int));
        assert(vulns@.take(k + 1).last() == vulns@[k as int]);
        match pkg_entry(&vulns[k]) {
            Some(e) => {
                let ghost before = views(pkgs@);
                pkgs.push(e);
                assert(views(pkgs@) =~= before.push(e@));
            },
            None => {
                assert(pkgs_of(vulns@.take(k + 1)) =~= pkgs_of(vulns@.take(k as int)));
            },
        }
        k = k + 1;
    }
    assert(vulns@.take(vulns.len() as int) == vulns@);
    pkgs
}

fn ref_links_exec(refs: &Vec<String>) -> (r: String)
    ensures
        r@ == ref_links(views(refs@)),
{
    let mut d = String::new();
    let mut j: usize = 0;
    assert(d@ =~= ref_links(views(refs@).take(0)));
    while j < refs.len()
        invariant
            j <= refs.len(),
            d@ == ref_links(views(refs@).take(j as int)),
        decreases refs.len() - j,
    {
        assert(views(refs@).take(j + 1).drop_last() == views(refs@).take(j as int));
        assert(views(refs@).take(j + 1).last() == refs@[j as int]@);
        push_str(&mut d, "<br><a href=\"");
        push_str(&mut d, refs[j].as_str());
        push_str(&mut d, "\">");
        push_str(&mut d, refs[j].as_str());
        push_str(&mut d, "</a>");
        j = j + 1;
    }
    assert(views(refs@).take(refs.len() as int) == views(refs@));
    d
}

fn description_exec(adv: &Json, cvss: &str) -> (r: String)
    ensures
        r@ == advisory_description(*adv, cvss@),
{
    proof {
        reveal(advisory_description);
        reveal_strlit("");
        assert(""@ =~= Seq::<char>::empty());
    }
    let refs = refs_exec(adv);
    let pkgs = pkgs_exec(adv);
    let mut d = cat("GHSA: ", str_or_exec(adv, "ghsa_id", "").as_str());
    push_str(&mut d, "<br>CVE: ");
    push_str(&mut d, str_or_exec(adv, "cve_id", "").as_str());
    push_str(&mut d, "<br>Severity: ");
    push_str(&mut d, str_or_exec(adv, "severity", "unknown").as_str());
    push_str(&mut d, "<br>CVSS: ");
    push_str(&mut d, cvss);
    push_str(&mut d, "<br>Published: ");
    push_str(&mut d, str_or_exec(adv, "published_at", "").as_str());
    push_str(&mut d, "<br>");
    let ghost d0 = d@;
    if pkgs.len() > 0 {
        push_str(&mut d, "Affected: ");
        push_str(&mut d, join_exec(pkgs.as_slice(), ", ").as_str());
        push_str(&mut d, "<br>");
        assert(d@ =~= d0 + ("Affected: "@ + join(views(pkgs@), ", "@) + "<br>"@));
    } else {
        assert(d@ =~= d0 + Seq::<char>::empty());
    }
    let text = str_or_exec(adv, "description", "");
    let ghost d1 = d@;
    if !is_empty(text.as_str()) {
        push_str(&mut d, render_markdown(text.as_str()).as_str());
    } else {
        assert(d@ =~= d1 + Seq::<char>::empty());
    }
    let ghost d2 = d@;
    if refs.len() > 0 {
        push_str(&mut d, "<br>References:");
        push_str(&mut d, ref_links_exec(&refs).as_str());
        assert(d@ =~= d2 + ("<br>References:"@ + ref_links(views(refs@))));
    } else {
        assert(d@ =~= d2 + Seq::<char>::empty());
    }
    d
}

fn advisory_item_exec(adv: &Json, cvss: &str, now: &str) -> (r: FeedItem)
    ensures
        r@ == advisory_item(*adv, cvss@, now@),
{
    proof {
        reveal(advisory_item);
        reveal_strlit("");
        assert(""@ =~= Seq::<char>::empty());
    }
    let ghsa = str_or_exec(adv, "ghsa_id", "");
    let summary = str_or_exec(adv, "summary", "");
    let html_url = str_or_exec(adv, "html_url", "");
    let title = if is_empty(summary.as_str()) {
        ghsa.clone()
    } else {
        let mut t = cat("[", to_uppercase_str(str_or_exec(adv, "severity", "unknown").as_str()).as_str());
        push_str(&mut t, "] ");
        push_str(&mut t, summary.as_str());
        t
    };
    let guid = if is_empty(ghsa.as_str()) {
        html_url.clone()
    } else {
        ghsa
    };
    let r = FeedItem {
        title: Some(title),
        link: Some(html_url),
        description: Some(description_exec(adv, cvss)),
        pub_date: Some(rfc3339_to_rss(str_or_exec(adv, "published_at", "").as_str(), now)),
        author: Some("GitHub Advisory Database".to_owned()),
        guid: Some((guid, false)),
        categories: Vec::new(),
    };
    assert(r@.categories =~= Seq::<Seq<char>>::empty());
    r
}

/// `get`, after the fetch: the feed for the API's answer. `cvss` holds
/// each advisory's CVSS score written with one decimal (`{:.1}`, `0.0`
/// where it has none); `now` is the current time in RSS form.
pub fn build_feed(para: &Params, json: &Json, cvss: &[String], now: &str) -> (r: Result<
    Feed,
    RouteError,
>)
    ensures
        feed_result_is(r, spec_feed(para@, *json, views(cvss@), now@)),
{
    proof {
        reveal_strlit("");
        assert(""@ =~= Seq::<char>::empty());
    }
    let advs = match json {
        Json::Array(a) => a,
        _ => {
            return Err(RouteError::msg("GitHub API returned unexpected response"));
        },
    };
    if advs.len() == 0 {
        return Err(RouteError::msg("No advisories found"));
    }
    let ghost want = Seq::new(
        advs@.len(),
        |i: int| advisory_item(advs@[i], cvss_at(views(cvss@), i), now@),
    );
    let mut items: Vec<FeedItem> = Vec::new();
    let mut i: usize = 0;
    assert(item_views(items@) =~= want.take(0));
    while i < advs.len()
        invariant
            i <= advs.len(),
            want.len() == advs@.len(),
            want == Seq::new(
                advs@.len(),
                |i: int| advisory_item(advs@[i], cvss_at(views(cvss@), i), now@),
            ),
            item_views(items@) == want.take(i as int),
        decreases advs.len() - i,
    {
        let c = if i < cvss.len() {
            cvss[i].clone()
        } else {
            "0.0".to_owned()
        };
        assert(c@ == cvss_at(views(cvss@), i as int));
        let it = advisory_item_exec(&advs[i], c.as_str(), now);
        let ghost before = item_views(items@);
        items.push(it);
        assert(item_views(items@) =~= before.push(it@));
        assert(want.take(i + 1) =~= want.take(i as int).push(want[i as int]));
        i = i + 1;
    }
    assert(want.take(advs.len() as int) == want);
    assert(item_views(items@) =~= Seq::new(
        advs@.len(),
        |i: int| advisory_item(advs@[i], cvss_at(views(cvss@), i), now@),
    ));
    let mut title = cat("GitHub Advisory Database - ", param_or_exec(para, "type", "reviewed").as_str());
    let eco = param_or_exec(para, "ecosystem", "");
    if !is_empty(eco.as_str()) {
        push_str(&mut title, " - ");
        push_str(&mut title, eco.as_str());
    }
    let ghost sv = spec_feed(para@, *json, views(cvss@), now@);
    assert(sv is Ok);
    assert(sv->Ok_0.items == item_views(items@));
    assert(sv->Ok_0.title == title@);
    Ok(
        Feed {
            title,
            link: "https://github.com/advisories".to_owned(),
            description: "Security advisories from the GitHub Advisory Database".to_owned(),
            pub_date: None,
            items,
        },
    )
}

/// Law: an advisory's item links to the advisory's `html_url` member (the
/// page on github.com), empty where it has none.
pub proof fn law_advisory_links_html_url(adv: Json, cvss: Seq<char>, now: Seq<char>)
    ensures
        advisory_item(adv, cvss, now).link == Some(
            match json_index(adv, "html_url"@) {
                Json::Str(u) => u@,
                _ => seq![],
            },
        ),
{
    reveal(advisory_item);
}

/// Law: the feed has one item per advisory, in order, each linking to that
/// advisory's `html_url`; an item is known by the advisory's `ghsa_id`
/// (its `html_url` where that is missing), is titled by the `ghsa_id` when
/// there is no `summary` and otherwise ends with the summary, and is dated
/// by `published_at`.
pub proof fn law_advisory_feed_items(
    para: Map<Seq<char>, Seq<char>>,
    json: Json,
    cvss: Seq<Seq<char>>,
    now: Seq<char>,
    adv: Json,
    c: Seq<char>,
)
    ensures
        ({
            let s = |k: Seq<char>| match json_index(adv, k) {
                Json::Str(t) => t@,
                _ => seq![],
            };
            let it = advisory_item(adv, c, now);
            &&& it.guid == Some((if s("ghsa_id"@).len() == 0 { s("html_url"@) } else { s("ghsa_id"@) }, false))
            &&& s("summary"@).len() == 0 ==> it.title == Some(s("ghsa_id"@))
            &&& s("summary"@).len() > 0 ==> (it.title matches Some(t) && t.len() >= s("summary"@).len()
                && t.subrange(t.len() - s("summary"@).len(), t.len() as int) == s("summary"@))
            &&& it.pub_date == Some(or_else(rfc3339_rfc2822(s("published_at"@)), now))
        }),
        match (json, spec_feed(para, json, cvss, now)) {
            (Json::Array(advs), Ok(f)) => f.items.len() == advs@.len() && forall|i: int|
                0 <= i < f.items.len() ==> (#[trigger] f.items[i]).link == Some(
                    match json_index(advs@[i], "html_url"@) {
                        Json::Str(u) => u@,
                        _ => seq![],
                    },
                ),
            _ => true,
        },
{
    reveal(advisory_item);
    let summary = str_or(adv, "summary"@, seq![]);
    if summary.len() > 0 {
        let t = "["@ + unicode_upper(str_or(adv, "severity"@, "unknown"@)) + "] "@ + summary;
        assert(t.subrange(t.len() - summary.len(), t.len() as int) =~= summary);
    }
    match json {
        Json::Array(advs) => {
            assert forall|i: int| 0 <= i < advs@.len() implies (#[trigger] advisory_item(advs@[i], cvss_at(cvss, i), now)).link == Some(
                match json_index(advs@[i], "html_url"@) {
                    Json::Str(u) => u@,
                    _ => seq![],
                },
            ) by {
                law_advisory_links_html_url(advs@[i], cvss_at(cvss, i), now);
            }
        },
        _ => {},
    }
}

} // verus!
