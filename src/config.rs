//! Settings of a synchronisation run.

use vstd::prelude::*;

verus! {

/// All settings of a run.
#[derive(Debug)]
pub struct Config {
    pub app: App,
}

/// The category the feeds are filed under, and the feed reader to import
/// them into.
#[derive(Debug)]
pub struct App {
    pub category_name: String,
    pub ttrss: Ttrss,
}

/// Where the feed reader lives and whom to log in as.
#[derive(Debug)]
pub struct Ttrss {
    pub url: String,
    pub username: String,
    pub password: String,
}

} // verus!
