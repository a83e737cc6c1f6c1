# rssust

An RSS feed server for sites without (working) feeds: bilibili, Douban,
GitHub, Chinese and English news sites. A request path names a route; the
route fetches the site's pages or API answers and turns them into an RSS 2.0
channel.

The logic is a Verus library whose functions carry `requires`/`ensures`
contracts over mathematical models (`Seq`, `Map`, views of the data types):

- `src/text.rs`, `src/json.rs`, `src/dates.rs`, `src/html.rs`, `src/order.rs`:
  strings, JSON values, RSS dates, what a page's elements hold, and orders.
- `src/easyuser.rs`, `src/config.rs`, `src/request_rules.rs`, `src/connect.rs`:
  query parameters, configuration, the route registry and the HTTP request
  head, keep-alive and response framing of the server.
- `src/rate_limit.rs`: the response cache and its expiry.
- `src/cookies.rs`: merging browser cookies into the cookie file.
- `src/feed.rs`: the feed model and its RSS text.
- `src/doc.rs`: the documentation pages.
- `src/routes/`: one module per route. Each plans the requests it needs
  (`request`, `…_request`) and builds the feed from the answers
  (`build_feed`); the contracts state the feed item by item.

Where a result comes from an outside crate (regex matching, HTML selection,
chrono dates, hashing, the RSS writer), the library calls it through a small
trusted wrapper whose contract names the result; the library's own logic
around it is verified.

`app/` is the program: command line, configuration file, logging, the
threaded HTTP server, the HTTP client and the documentation generator. It
sends the requests the library plans and hands the answers back.

`tests/` holds the tests, run against the compiled library.
