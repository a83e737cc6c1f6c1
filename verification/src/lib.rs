pub mod text;
pub mod easyuser;
pub mod config;
pub mod request_rules;
pub mod connect;
pub mod order;
pub mod rate_limit;
pub mod json;
pub mod github_common;
pub mod feed;
pub mod dates;
pub mod cookies;
pub mod html;
pub mod doc;
pub mod routes;
