//! An IP-geolocation service core: a lifecycle manager for a periodically
//! refreshed read-only geo-database, the refresh scheduler's decisions, and
//! a lookup dispatcher that validates a bounded batch of addresses and
//! routes it to one of a closed set of typed decoders.

pub mod db_refresher;
pub mod download_utils;
pub mod ip;
pub mod ip_parse;
pub mod maxmind_db;
pub mod models;
pub mod network_utils;
pub mod schemas;
pub mod services;
pub mod text;
