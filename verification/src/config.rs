//! The server's settings, read from `config.toml` next to the executable.
//!
//! The file is read and parsed outside the library; these functions answer
//! questions about its contents.
use crate::text::{dec, push_str, str_eq, u64_to_string};
use vstd::prelude::*;

verus! {

/// The `[server]` table.
#[derive(Clone, Debug)]
pub struct ServerConfig {
    pub port: Option<u16>,
    pub max_concurrent: Option<u32>,
    pub timeout: Option<u64>,
}

/// The `[routes]` table: disabled routes, and per-route response caching in
/// seconds (`rate_limit`, a table from route name to seconds).
#[derive(Clone, Debug)]
pub struct RoutesConfig {
    pub disabled: Option<Vec<String>>,
    pub rate_limit: Option<Vec<(String, u64)>>,
}

/// The whole configuration file.
#[derive(Clone, Debug)]
pub struct Config {
    pub server: Option<ServerConfig>,
    pub routes: Option<RoutesConfig>,
}

/// The configured port, 7878 by default.
pub open spec fn spec_server_port(c: Config) -> u16 {
    match c.server {
        Some(s) => match s.port {
            Some(p) => p,
            None => 7878,
        },
        None => 7878,
    }
}

pub fn server_port(c: &Config) -> (r: u16)
    ensures
        r == spec_server_port(*c),
{
    match &c.server {
        Some(s) => match s.port {
            Some(p) => p,
            None => 7878,
        },
        None => 7878,
    }
}

/// The number of CPU cores as a `u8`: the reported count, at most 255; 1
/// where the count cannot be had.
pub open spec fn spec_core_count(available: Option<usize>) -> u8 {
    match available {
        Some(n) => if n > 255 {
            255
        } else {
            n as u8
        },
        None => 1,
    }
}

pub fn realcorenum(available: Option<usize>) -> (r: u8)
    ensures
        r == spec_core_count(available),
{
    match available {
        Some(n) => if n > 255 {
            255
        } else {
            n as u8
        },
        None => 1,
    }
}

/// The concurrency limit: twice the configured `max_concurrent` (twice the
/// core count by default), saturating, and at least 1.
pub open spec fn spec_max_concurrent(c: Config, cores: u8) -> u32 {
    let base: u32 = match c.server {
        Some(s) => match s.max_concurrent {
            Some(m) => m,
            None => cores as u32,
        },
        None => cores as u32,
    };
    let doubled: u32 = if base as int * 2 > u32::MAX as int {
        u32::MAX
    } else {
        (base * 2) as u32
    };
    if doubled < 1 {
        1
    } else {
        doubled
    }
}

pub fn max_concurrent(c: &Config, cores: u8) -> (r: u32)
    ensures
        r == spec_max_concurrent(*c, cores),
        r >= 1,
{
    let base: u32 = match &c.server {
        Some(s) => match s.max_concurrent {
            Some(m) => m,
            None => cores as u32,
        },
        None => cores as u32,
    };
    let doubled: u32 = if base > u32::MAX / 2 {
        u32::MAX
    } else {
        base * 2
    };
    if doubled < 1 {
        1
    } else {
        doubled
    }
}

/// The timeout for upstream requests in seconds, 60 by default.
pub open spec fn spec_request_timeout(c: Config) -> u64 {
    match c.server {
        Some(s) => match s.timeout {
            Some(t) => t,
            None => 60,
        },
        None => 60,
    }
}

pub fn request_timeout(c: &Config) -> (r: u64)
    ensures
        r == spec_request_timeout(*c),
{
    match &c.server {
        Some(s) => match s.timeout {
            Some(t) => t,
            None => 60,
        },
        None => 60,
    }
}

/// The route is listed under `[routes] disabled`.
pub open spec fn spec_route_disabled(c: Config, route: Seq<char>) -> bool {
    match c.routes {
        Some(r) => match r.disabled {
            Some(d) => exists|i: int| 0 <= i < d@.len() && (#[trigger] d@[i])@ == route,
            None => false,
        },
        None => false,
    }
}

#[verifier::loop_isolation(false)]
pub fn is_route_disabled(c: &Config, route: &str) -> (r: bool)
    ensures
        r == spec_route_disabled(*c, route@),
{
    match &c.routes {
        Some(rc) => match &rc.disabled {
            Some(d) => {
                let mut i: usize = 0;
                while i < d.len()
                    invariant
                        i <= d.len(),
                        forall|j: int| 0 <= j < i ==> (#[trigger] d@[j])@ != route@,
                    decreases d.len() - i,
                {
                    if str_eq(d[i].as_str(), route) {
                        assert(d@[i as int]@ == route@);
                        return true;
                    }
                    i = i + 1;
                }
                false
            },
            None => false,
        },
        None => false,
    }
}

/// The caching interval of the first `rate_limit` entry for `route`; a
/// TOML table holds each key once.
pub open spec fn spec_rate_limit_secs(c: Config, route: Seq<char>) -> Option<u64> {
    match c.routes {
        Some(r) => match r.rate_limit {
            Some(m) => if exists|i: int| 0 <= i < m@.len() && (#[trigger] m@[i]).0@ == route {
                let i = choose|i: int|
                    0 <= i < m@.len() && (#[trigger] m@[i]).0@ == route && forall|j: int|
                        0 <= j < i ==> (#[trigger] m@[j]).0@ != route;
                Some(m@[i].1)
            } else {
                None
            },
            None => None,
        },
        None => None,
    }
}

/// Law: where the `rate_limit` table names `route` (a TOML table names each
/// key once), the lookup gives the seconds configured for it; where no
/// `[routes]`, no `rate_limit` or no entry for `route` is there, nothing (the
/// route is not cached).
pub proof fn law_rate_limit_lookup(c: Config, route: Seq<char>, i: int)
    ensures
        ({
            let m = c.routes.unwrap().rate_limit.unwrap()@;
            c.routes is Some && c.routes.unwrap().rate_limit is Some && 0 <= i < m.len()
                && m[i].0@ == route && (forall|j: int, k: int|
                0 <= j < k < m.len() ==> (#[trigger] m[j]).0@ != (#[trigger] m[k]).0@)
                ==> spec_rate_limit_secs(c, route) == Some(m[i].1)
        }),
        (c.routes is None || c.routes.unwrap().rate_limit is None || forall|j: int|
            0 <= j < c.routes.unwrap().rate_limit.unwrap()@.len()
                ==> (#[trigger] c.routes.unwrap().rate_limit.unwrap()@[j]).0@ != route)
            ==> spec_rate_limit_secs(c, route) is None,
{
    if let Some(r) = c.routes {
        if let Some(m) = r.rate_limit {
            if 0 <= i < m@.len() && m@[i].0@ == route && (forall|j: int, k: int|
                0 <= j < k < m@.len() ==> (#[trigger] m@[j]).0@ != (#[trigger] m@[k]).0@) {
                let k = choose|k: int|
                    0 <= k < m@.len() && (#[trigger] m@[k]).0@ == route && forall|j: int|
                        0 <= j < k ==> (#[trigger] m@[j]).0@ != route;
                assert(0 <= i < m@.len() && m@[i].0@ == route);
                if k < i {
                    assert(m@[k].0@ != m@[i].0@);
                }
                if i < k {
                    assert(m@[i].0@ != m@[k].0@);
                }
            }
        }
    }
}

#[verifier::loop_isolation(false)]
pub fn rate_limit_secs(c: &Config, route: &str) -> (r: Option<u64>)
    ensures
        r == spec_rate_limit_secs(*c, route@),
{
    match &c.routes {
        Some(rc) => match &rc.rate_limit {
            Some(m) => {
                let mut i: usize = 0;
                while i < m.len()
                    invariant
                        i <= m.len(),
                        forall|j: int| 0 <= j < i ==> (#[trigger] m@[j]).0@ != route@,
                    decreases m.len() - i,
                {
                    if str_eq(m[i].0.as_str(), route) {
                        proof {
                            let k = choose|k: int|
                                0 <= k < m@.len() && (#[trigger] m@[k]).0@ == route@ && forall|
                                    j: int,
                                | 0 <= j < k ==> (#[trigger] m@[j]).0@ != route@;
                            assert(0 <= i < m@.len() && m@[i as int].0@ == route@ && forall|j: int|
                                0 <= j < i ==> (#[trigger] m@[j]).0@ != route@);
                            if k < i {
                                assert(m@[k].0@ != route@);
                            }
                            if k > i {
                                assert(m@[i as int].0@ != route@);
                            }
                        }
                        return Some(m[i].1);
                    }
                    i = i + 1;
                }
                None
            },
            None => None,
        },
        None => None,
    }
}

/// The text of the configuration file written when none exists.
pub open spec fn default_config_text(cores: u8) -> Seq<char> {
    "[server]\nport = 7878\nmax_concurrent = "@ + dec(cores as nat)
        + "\ntimeout = 60\n\n[routes]\ndisabled = []"@
}

pub fn default_config(cores: u8) -> (r: String)
    ensures
        r@ == default_config_text(cores),
{
    let mut s = "[server]\nport = 7878\nmax_concurrent = ".to_owned();
    push_str(&mut s, u64_to_string(cores as u64).as_str());
    push_str(&mut s, "\ntimeout = 60\n\n[routes]\ndisabled = []");
    s
}

} // verus!
