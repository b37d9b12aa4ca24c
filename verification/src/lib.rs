//! A firewall for git over ssh: the rules that decide which client may read or write which
//! repository, the hosts whose keys were accepted, and the steps of a proxied session.

pub mod config;
pub mod keys;
pub mod known_hosts;
pub mod model;
pub mod proxy;
pub mod rules;
pub mod session;
pub mod str_map;
pub mod target;
pub mod text;
pub mod ui;
