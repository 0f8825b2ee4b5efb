//! Loading the table: from the cache file while that is fresh, else from the
//! source, with the cache file written anew.
//!
//! The library does no input or output. It says in a `LoadState` what is to
//! be done next, and is told in a `LoadEvent` what came of it.

use crate::municd::record::MuniCdRecordView;
use crate::municd::source::{parse_source, parsed_source};
use crate::municd::table::MuniCdMap;
use crate::municd::CacheError;
use vstd::prelude::*;

verus! {

/// For how many days a cached copy of the table stays usable.
pub const EXPIRE_DAYS: u64 = 10;

/// What a look at the cache file found.
#[derive(Clone, Copy, Debug, PartialEq, Eq, Structural)]
pub enum CacheProbe {
    /// There is no such file.
    Missing,
    /// The file's metadata cannot be read.
    MetadataUnreadable,
    /// The metadata do not give the time of the last modification.
    ModifiedTimeUnreadable,
    /// The file was modified after the present time.
    ModifiedInFuture,
    /// The file was last modified this many whole seconds ago.
    Age(u64),
}

/// Whether a cache file may still be used: it is there, its age is known,
/// and that is less than `EXPIRE_DAYS` days.
pub open spec fn is_fresh(probe: CacheProbe) -> bool {
    probe matches CacheProbe::Age(secs) && secs < 86400 * EXPIRE_DAYS
}

/// Decides whether the cache file may still be used.
pub fn is_available(probe: &CacheProbe) -> (r: bool)
    ensures
        r == is_fresh(*probe),
{
    match probe {
        CacheProbe::Age(secs) => *secs < 86400 * EXPIRE_DAYS,
        _ => false,
    }
}

/// How far the loading of the table has come, and so what is to be done next
/// by the caller, who then reports the outcome as a `LoadEvent`.
pub enum LoadState {
    /// The cache file is to be looked at.
    Probing,
    /// The cache file is to be read and decoded.
    ReadingCache,
    /// The source text is to be fetched.
    Fetching,
    /// This table, read from the source, is to be written to the cache file.
    Persisting(MuniCdMap),
    /// The table is loaded. Nothing is left to do.
    Loaded(MuniCdMap),
    /// Loading has failed. Nothing is left to do.
    Failed(CacheError),
}

/// What the caller found when it did what a `LoadState` asked for.
pub enum LoadEvent {
    /// The cache file was looked at.
    Probed(CacheProbe),
    /// The cache file was read: its table, or `None` where the file could not
    /// be opened or decoded.
    CacheRead(Option<MuniCdMap>),
    /// The source was asked for: its text, or `None` where that failed.
    Fetched(Option<String>),
    /// The table was written to the cache file, or could not be.
    Persisted(bool),
}

/// A `LoadState`, with the table it holds as a mathematical map.
pub ghost enum LoadStateView {
    Probing,
    ReadingCache,
    Fetching,
    Persisting(Map<Seq<char>, MuniCdRecordView>),
    Loaded(Map<Seq<char>, MuniCdRecordView>),
    Failed(CacheError),
}

/// A `LoadEvent`, with what it holds as mathematical values.
pub ghost enum LoadEventView {
    Probed(CacheProbe),
    CacheRead(Option<Map<Seq<char>, MuniCdRecordView>>),
    Fetched(Option<Seq<char>>),
    Persisted(bool),
}

impl View for LoadState {
    type V = LoadStateView;

    open spec fn view(&self) -> LoadStateView {
        match self {
            LoadState::Probing => LoadStateView::Probing,
            LoadState::ReadingCache => LoadStateView::ReadingCache,
            LoadState::Fetching => LoadStateView::Fetching,
            LoadState::Persisting(table) => LoadStateView::Persisting(table@),
            LoadState::Loaded(table) => LoadStateView::Loaded(table@),
            LoadState::Failed(e) => LoadStateView::Failed(*e),
        }
    }
}

impl View for LoadEvent {
    type V = LoadEventView;

    open spec fn view(&self) -> LoadEventView {
        match self {
            LoadEvent::Probed(probe) => LoadEventView::Probed(*probe),
            LoadEvent::CacheRead(Some(table)) => LoadEventView::CacheRead(Some(table@)),
            LoadEvent::CacheRead(None) => LoadEventView::CacheRead(None),
            LoadEvent::Fetched(Some(text)) => LoadEventView::Fetched(Some(text@)),
            LoadEvent::Fetched(None) => LoadEventView::Fetched(None),
            LoadEvent::Persisted(done) => LoadEventView::Persisted(*done),
        }
    }
}

/// The state that follows `state` on `event`.
///
/// A fresh cache file is read, and served if it decodes. In every other case
/// the source is fetched and read, and the table is served once it has been
/// written to the cache file. An event that the state did not ask for changes
/// nothing.
pub open spec fn next(state: LoadStateView, event: LoadEventView) -> LoadStateView {
    match (state, event) {
        (LoadStateView::Probing, LoadEventView::Probed(probe)) => if is_fresh(probe) {
            LoadStateView::ReadingCache
        } else {
            LoadStateView::Fetching
        },
        (LoadStateView::ReadingCache, LoadEventView::CacheRead(Some(table))) => {
            LoadStateView::Loaded(table)
        },
        (LoadStateView::ReadingCache, LoadEventView::CacheRead(None)) => LoadStateView::Fetching,
        (LoadStateView::Fetching, LoadEventView::Fetched(Some(text))) => match parsed_source(
            text,
        ) {
            Ok(table) => LoadStateView::Persisting(table),
            Err(e) => LoadStateView::Failed(e),
        },
        (LoadStateView::Fetching, LoadEventView::Fetched(None)) => LoadStateView::Failed(
            CacheError::Fetch,
        ),
        (LoadStateView::Persisting(table), LoadEventView::Persisted(true)) => {
            LoadStateView::Loaded(table)
        },
        (LoadStateView::Persisting(_), LoadEventView::Persisted(false)) => LoadStateView::Failed(
            CacheError::Persist,
        ),
        (state, _) => state,
    }
}

impl LoadState {
    /// The state in which loading begins.
    pub fn start() -> (r: LoadState)
        ensures
            r@ == LoadStateView::Probing,
    {
        LoadState::Probing
    }

    /// Takes `event` into account and gives the state that follows.
    pub fn step(self, event: LoadEvent) -> (r: LoadState)
        ensures
            r@ == next(self@, event@),
    {
        match (self, event) {
            (LoadState::Probing, LoadEvent::Probed(probe)) => {
                if is_available(&probe) {
                    LoadState::ReadingCache
                } else {
                    LoadState::Fetching
                }
            },
            (LoadState::ReadingCache, LoadEvent::CacheRead(Some(table))) => LoadState::Loaded(
                table,
            ),
            (LoadState::ReadingCache, LoadEvent::CacheRead(None)) => LoadState::Fetching,
            (LoadState::Fetching, LoadEvent::Fetched(Some(text))) => {
                match parse_source(text.as_str()) {
                    Ok(table) => LoadState::Persisting(table),
                    Err(e) => LoadState::Failed(e),
                }
            },
            (LoadState::Fetching, LoadEvent::Fetched(None)) => LoadState::Failed(
                CacheError::Fetch,
            ),
            (LoadState::Persisting(table), LoadEvent::Persisted(true)) => LoadState::Loaded(table),
            (LoadState::Persisting(_), LoadEvent::Persisted(false)) => LoadState::Failed(
                CacheError::Persist,
            ),
            (state, _) => state,
        }
    }
}

/// The state that loading is in after `events`, taken in order from `state`.
pub open spec fn run(state: LoadStateView, events: Seq<LoadEventView>) -> LoadStateView
    decreases events.len(),
{
    if events.len() == 0 {
        state
    } else {
        next(run(state, events.drop_last()), events.last())
    }
}

/// Once the table is loaded, or loading has failed, no event changes that.
pub proof fn lemma_finished_stays(state: LoadStateView, events: Seq<LoadEventView>)
    requires
        state is Loaded || state is Failed,
    ensures
        run(state, events) == state,
    decreases events.len(),
{
    if events.len() > 0 {
        lemma_finished_stays(state, events.drop_last());
    }
}

/// Where the cache file is fresh and decodes, the first `n` events lead from
/// looking at the file to reading it, and from there to the loaded table.
proof fn lemma_fresh_cache_trace(
    probe: CacheProbe,
    table: Map<Seq<char>, MuniCdRecordView>,
    events: Seq<LoadEventView>,
    n: int,
)
    requires
        is_fresh(probe),
        2 <= events.len(),
        events[0] == LoadEventView::Probed(probe),
        events[1] == LoadEventView::CacheRead(Some(table)),
        0 <= n <= events.len(),
    ensures
        n == 0 ==> run(LoadStateView::Probing, events.take(n)) == LoadStateView::Probing,
        n == 1 ==> run(LoadStateView::Probing, events.take(n)) == LoadStateView::ReadingCache,
        n >= 2 ==> run(LoadStateView::Probing, events.take(n)) == LoadStateView::Loaded(table),
    decreases n,
{
    if n > 0 {
        lemma_fresh_cache_trace(probe, table, events, n - 1);
        assert(events.take(n).drop_last() == events.take(n - 1));
    }
}

/// A cache file that is less than `EXPIRE_DAYS` days old and decodes is
/// served as it is: whatever events follow, the table loaded is the one read
/// from the file, and at no point is the source to be fetched.
pub proof fn lemma_fresh_cache_is_served(
    probe: CacheProbe,
    table: Map<Seq<char>, MuniCdRecordView>,
    events: Seq<LoadEventView>,
)
    requires
        is_fresh(probe),
        2 <= events.len(),
        events[0] == LoadEventView::Probed(probe),
        events[1] == LoadEventView::CacheRead(Some(table)),
    ensures
        run(LoadStateView::Probing, events) == LoadStateView::Loaded(table),
        forall|n: int|
            0 <= n <= events.len() ==> run(LoadStateView::Probing, #[trigger] events.take(n))
                != LoadStateView::Fetching,
{
    assert forall|n: int| 0 <= n <= events.len() implies run(
        LoadStateView::Probing,
        #[trigger] events.take(n),
    ) != LoadStateView::Fetching by {
        lemma_fresh_cache_trace(probe, table, events, n);
    }
    lemma_fresh_cache_trace(probe, table, events, events.len() as int);
    assert(events.take(events.len() as int) == events);
}

/// A cache file that cannot be served has the source fetched: one that is
/// missing, too old or of unknown age at once, and one that is fresh but
/// does not decode after the attempt to read it.
pub proof fn lemma_unusable_cache_is_refreshed(probe: CacheProbe)
    ensures
        !is_fresh(probe) ==> next(LoadStateView::Probing, LoadEventView::Probed(probe))
            == LoadStateView::Fetching,
        is_fresh(probe) ==> next(
            next(LoadStateView::Probing, LoadEventView::Probed(probe)),
            LoadEventView::CacheRead(None),
        ) == LoadStateView::Fetching,
{
}

/// A refresh serves the table that the source text gives, once it is
/// written: what is loaded after a fetch is exactly what `parsed_source`
/// reads from the text that was fetched.
pub proof fn lemma_refresh_serves_parsed_source(
    text: Seq<char>,
    table: Map<Seq<char>, MuniCdRecordView>,
)
    requires
        parsed_source(text) == Ok::<Map<Seq<char>, MuniCdRecordView>, CacheError>(table),
    ensures
        next(LoadStateView::Fetching, LoadEventView::Fetched(Some(text)))
            == LoadStateView::Persisting(table),
        next(LoadStateView::Persisting(table), LoadEventView::Persisted(true))
            == LoadStateView::Loaded(table),
{
}

/// The events of a refresh that goes well: the look at the cache file, the
/// failed read where the file was fresh, the text that was fetched, and the
/// write.
pub open spec fn refresh_events(probe: CacheProbe, text: Seq<char>) -> Seq<LoadEventView> {
    if is_fresh(probe) {
        seq![
            LoadEventView::Probed(probe),
            LoadEventView::CacheRead(None),
            LoadEventView::Fetched(Some(text)),
            LoadEventView::Persisted(true),
        ]
    } else {
        seq![
            LoadEventView::Probed(probe),
            LoadEventView::Fetched(Some(text)),
            LoadEventView::Persisted(true),
        ]
    }
}

/// With a cache file that is missing, too old or of unknown age, or that
/// is fresh and does not decode, the table loaded is the one that the fetched
/// source text gives.
pub proof fn lemma_unusable_cache_loads_source(
    probe: CacheProbe,
    text: Seq<char>,
    table: Map<Seq<char>, MuniCdRecordView>,
)
    requires
        parsed_source(text) == Ok::<Map<Seq<char>, MuniCdRecordView>, CacheError>(table),
    ensures
        run(LoadStateView::Probing, refresh_events(probe, text)) == LoadStateView::Loaded(table),
{
    let events = refresh_events(probe, text);
    let n = events.len() as int;
    lemma_run_takes_steps(LoadStateView::Probing, events, 1);
    lemma_run_takes_steps(LoadStateView::Probing, events, 2);
    lemma_run_takes_steps(LoadStateView::Probing, events, 3);
    if n == 4 {
        lemma_run_takes_steps(LoadStateView::Probing, events, 4);
    }
    assert(events.take(0).len() == 0);
    assert(events.take(n) == events);
}

/// The state after the first `n` events follows from the state after the
/// first `n - 1` by the last of them.
pub proof fn lemma_run_takes_steps(state: LoadStateView, events: Seq<LoadEventView>, n: int)
    requires
        0 < n <= events.len(),
    ensures
        run(state, events.take(n)) == next(run(state, events.take(n - 1)), events[n - 1]),
{
    assert(events.take(n).drop_last() == events.take(n - 1));
}

/// A refresh either serves the whole table or fails: a fetch that fails, a
/// source that does not parse and a write that fails each end loading with
/// their error.
pub proof fn lemma_refresh_fails_outright(
    text: Seq<char>,
    table: Map<Seq<char>, MuniCdRecordView>,
    e: CacheError,
)
    ensures
        next(LoadStateView::Fetching, LoadEventView::Fetched(None)) == LoadStateView::Failed(
            CacheError::Fetch,
        ),
        parsed_source(text) == Err::<Map<Seq<char>, MuniCdRecordView>, CacheError>(e) ==> next(
            LoadStateView::Fetching,
            LoadEventView::Fetched(Some(text)),
        ) == LoadStateView::Failed(e),
        next(LoadStateView::Persisting(table), LoadEventView::Persisted(false))
            == LoadStateView::Failed(CacheError::Persist),
{
}

/// A table is loaded only by reading the cache file or by writing the table
/// read from the source.
pub proof fn lemma_loaded_from_cache_or_source(
    state: LoadStateView,
    event: LoadEventView,
    table: Map<Seq<char>, MuniCdRecordView>,
)
    requires
        !(state is Loaded),
        next(state, event) == LoadStateView::Loaded(table),
    ensures
        (state == LoadStateView::ReadingCache && event == LoadEventView::CacheRead(Some(table)))
            || (state == LoadStateView::Persisting(table) && event == LoadEventView::Persisted(
            true,
        )),
{
}

} // verus!
