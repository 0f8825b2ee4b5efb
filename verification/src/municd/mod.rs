//! The table of municipalities: its records, the reading of the published
//! source text, and the rule for when a cached copy may still be used.
//!
//! A record is found under its code, written as six decimal digits with
//! leading zeros.

pub mod load;
pub mod record;
pub mod source;
pub mod table;

pub use load::{
    is_available, is_fresh, lemma_finished_stays, lemma_fresh_cache_is_served,
    lemma_loaded_from_cache_or_source, lemma_refresh_fails_outright,
    lemma_refresh_serves_parsed_source, lemma_run_takes_steps, lemma_unusable_cache_is_refreshed,
    lemma_unusable_cache_loads_source, next, refresh_events, run, CacheProbe, LoadEvent,
    LoadEventView, LoadState, LoadStateView, EXPIRE_DAYS,
};
pub use record::{
    code_key, key_of_code, lemma_code_key_injective, lemma_key_denotes_code, MuniCdRecord,
    MuniCdRecordView, IDEOGRAPHIC_SPACE, KEY_WIDTH,
};
pub use source::{
    codes_are_unique, entry_of, entry_of_groups, filed_by_code, lemma_records_error_stays,
    lemma_records_filed_by_code, lemma_unmatched_line_adds_nothing, parse_source, parse_with,
    parsed_source, parsed_with, records_of, regex_captures, regex_compiles, regex_syntax,
    MUNICD_URL, RECORD_RE,
};
pub use table::{
    entry_views, has_entry, has_key, lemma_entries_rebuild_table, lists, table_of, MuniCdMap,
};

use vstd::prelude::*;

verus! {

/// Why the table could not be had.
#[derive(Clone, Copy, Debug, PartialEq, Eq, Structural)]
pub enum CacheError {
    /// The expression for a record's line was not accepted.
    Pattern,
    /// A line of the source has the shape of a record, but its code is no
    /// number that fits.
    MalformedSource,
    /// The source text could not be fetched.
    Fetch,
    /// The table could not be written to the cache file.
    Persist,
}

} // verus!
