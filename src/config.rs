//! Settings read once at startup.

use vstd::prelude::*;

verus! {

/// Where the database is.
#[derive(Debug)]
pub struct Config {
    pub database_url: String,
}

} // verus!
