//! Resolution of the store's filesystem location.
//!
//! The surrounding application reads the process environment and hands the
//! optional override in as plain data, so the resolution rule itself stays
//! pure and verified.

use vstd::prelude::*;

verus! {

/// Configuration handed in by the process bootstrap: an optional override for
/// the location of the store file.
pub struct StoreConfig {
    /// Replaces the default store location when present.
    pub store_path: Option<String>,
}

/// The fixed default location of the store file.
pub open spec fn spec_default_path() -> Seq<char> {
    "log.db"@
}

/// The store location a configuration resolves to: the configured override
/// when there is one, the default `"log.db"` otherwise.
pub open spec fn spec_resolved_path(config: StoreConfig) -> Seq<char> {
    match config.store_path {
        Some(p) => p@,
        None => spec_default_path(),
    }
}

/// Resolves the location of the store file: the configured override when one
/// is present, `"log.db"` otherwise.
pub fn resolve_path(config: &StoreConfig) -> (path: String)
    ensures
        path@ == spec_resolved_path(*config),
{
    match &config.store_path {
        Some(p) => p.clone(),
        None => String::from_str("log.db"),
    }
}

} // verus!
