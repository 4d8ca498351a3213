//! Host configuration resolved from the process environment.
//!
//! Reading the environment is the embedder's business; this module fixes how
//! the raw variable values determine the configuration.

use vstd::prelude::*;

use crate::text::{all_digits, digits_val, numeral_digits, parse_u64, str_eq};

verus! {

/// Fallback time-to-live of cached search results, in seconds.
pub const DEFAULT_SEARCH_TTL_SECS: u64 = 3600;

/// Fallback time-to-live of cached pages, in seconds.
pub const DEFAULT_PAGES_TTL_SECS: u64 = 86400;

/// Host configuration: where the database lives, where plugins are found,
/// whether migrations run at startup, and the cache lifetimes.
pub struct Config {
    pub db_path: Option<String>,
    pub plugins_dir: Option<String>,
    pub run_migrations: bool,
    pub search_ttl_secs: u64,
    pub pages_ttl_secs: u64,
}

/// The value a time-to-live variable resolves to: the parsed number when the
/// variable is present and parses as a decimal numeral (an optional leading
/// plus sign, then digits), the fallback otherwise.
pub open spec fn spec_ttl(var: Option<String>, fallback: u64) -> u64 {
    match var {
        Some(v) => if numeral_digits(v@).len() > 0 && all_digits(numeral_digits(v@))
            && digits_val(numeral_digits(v@)) <= u64::MAX {
            digits_val(numeral_digits(v@)) as u64
        } else {
            fallback
        },
        None => fallback,
    }
}

impl Config {
    /// Resolve the configuration from the raw environment values.
    ///
    /// Migrations run unless the variable is present and different from
    /// `"true"`; an absent variable means the default. A time-to-live
    /// variable that is absent or does not parse as a decimal number falls
    /// back to its default.
    pub fn new(
        db_path: Option<String>,
        plugins_dir: Option<String>,
        run_migrations_var: Option<String>,
        search_ttl_var: Option<String>,
        pages_ttl_var: Option<String>,
    ) -> (c: Config)
        ensures
            c.db_path == db_path,
            c.plugins_dir == plugins_dir,
            c.run_migrations == match run_migrations_var {
                Some(v) => v@ == "true"@,
                None => true,
            },
            c.search_ttl_secs == spec_ttl(search_ttl_var, DEFAULT_SEARCH_TTL_SECS),
            c.pages_ttl_secs == spec_ttl(pages_ttl_var, DEFAULT_PAGES_TTL_SECS),
    {
        let run_migrations = match &run_migrations_var {
            Some(v) => str_eq(v.as_str(), "true"),
            None => true,
        };
        let search_ttl_secs = match &search_ttl_var {
            Some(v) => match parse_u64(v.as_str()) {
                Some(n) => n,
                None => DEFAULT_SEARCH_TTL_SECS,
            },
            None => DEFAULT_SEARCH_TTL_SECS,
        };
        let pages_ttl_secs = match &pages_ttl_var {
            Some(v) => match parse_u64(v.as_str()) {
                Some(n) => n,
                None => DEFAULT_PAGES_TTL_SECS,
            },
            None => DEFAULT_PAGES_TTL_SECS,
        };
        Config { db_path, plugins_dir, run_migrations, search_ttl_secs, pages_ttl_secs }
    }
}

} // verus!
