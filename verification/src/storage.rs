//! The quote store: one cached series and one last-fetch time per symbol,
//! and the policy that decides when a symbol is fetched again.

use vstd::hash_map::StringHashMap;
use vstd::prelude::*;

use crate::quote::{strictly_ascending, QuoteRecord, QuoteSeries};
use crate::requests::{outcome_view, FetchError};

verus! {

/// The time to live of a cached series: 24 hours, in seconds.
pub const UPDATE_INTERVAL: u64 = 60 * 60 * 24;

/// The time that stands for "never fetched": the Unix epoch.
pub const EPOCH: u64 = 0;

/// The closed interval of time, in seconds since the Unix epoch, that a fetch
/// asks the provider for.
#[derive(Clone, Copy, Debug, PartialEq, Eq, Structural)]
pub struct FetchWindow {
    pub start: u64,
    pub end: u64,
}

/// What a caller has to do after asking for a refresh.
#[derive(Clone, Copy, Debug, PartialEq, Eq, Structural)]
pub enum RefreshAction {
    /// The cached data is fresh: nothing to do.
    Skip,
    /// Fetch this window from the provider and hand the outcome to
    /// [`QuotesStorage::update`].
    Fetch(FetchWindow),
}

/// The window of a fetch at `now` after `elapsed` seconds without one: it
/// ends at `now` and starts `elapsed` seconds earlier, at the epoch if that
/// would lie before it.
pub open spec fn window_of(now: u64, elapsed: u64) -> FetchWindow {
    FetchWindow {
        start: if elapsed <= now {
            (now - elapsed) as u64
        } else {
            EPOCH
        },
        end: now,
    }
}

/// Computes the window of a fetch at `now` after `elapsed` seconds without
/// one.
pub fn fetch_window(now: u64, elapsed: u64) -> (window: FetchWindow)
    ensures
        window == window_of(now, elapsed),
        window.start <= window.end,
        elapsed <= now ==> window.end - window.start == elapsed,
{
    FetchWindow { start: now.saturating_sub(elapsed), end: now }
}

/// The store as a mathematical value.
#[verifier::ext_equal]
pub struct StoreState {
    /// The cached series of each symbol that has one.
    pub history: Map<Seq<char>, Seq<QuoteRecord>>,
    /// The time of the last fetch, successful or not, of each symbol for
    /// which one was started.
    pub last_update: Map<Seq<char>, u64>,
    /// How long a fetch keeps a symbol fresh, in seconds.
    pub ttl: u64,
}

impl StoreState {
    /// The store before any refresh.
    pub open spec fn empty(ttl: u64) -> StoreState {
        StoreState { history: Map::empty(), last_update: Map::empty(), ttl }
    }

    /// Every cached series is strictly ascending by timestamp.
    pub open spec fn well_formed(self) -> bool {
        forall|symbol: Seq<char>|
            self.history.contains_key(symbol) ==> strictly_ascending(#[trigger] self.history[symbol])
    }

    /// The cached series of `symbol`, if there is one.
    pub open spec fn get(self, symbol: Seq<char>) -> Option<Seq<QuoteRecord>> {
        if self.history.contains_key(symbol) {
            Some(self.history[symbol])
        } else {
            None
        }
    }

    /// A symbol is fresh at `now` when it was fetched and less than the time
    /// to live has passed since.
    pub open spec fn is_fresh(self, symbol: Seq<char>, now: u64) -> bool {
        self.last_update.contains_key(symbol) && now - self.last_update[symbol] < self.ttl
    }

    /// The time of the last fetch of `symbol`, the epoch if there was none.
    pub open spec fn previous_fetch(self, symbol: Seq<char>) -> u64 {
        if self.last_update.contains_key(symbol) {
            self.last_update[symbol]
        } else {
            EPOCH
        }
    }

    /// What a refresh of `symbol` at `now` asks the caller to do: nothing for
    /// a fresh symbol, and otherwise a fetch of the time since the previous
    /// fetch.
    pub open spec fn action(self, symbol: Seq<char>, now: u64) -> RefreshAction {
        if self.is_fresh(symbol, now) {
            RefreshAction::Skip
        } else {
            RefreshAction::Fetch(FetchWindow { start: self.previous_fetch(symbol), end: now })
        }
    }

    /// The store after a refresh of `symbol` was asked for at `now`: unchanged
    /// when the symbol is fresh, and with `now` as the symbol's last fetch
    /// time otherwise.
    pub open spec fn update_checked(self, symbol: Seq<char>, now: u64) -> StoreState {
        if self.is_fresh(symbol, now) {
            self
        } else {
            StoreState { last_update: self.last_update.insert(symbol, now), ..self }
        }
    }

    /// The store after the fetch for `symbol` ended in `outcome`: a fetched
    /// series takes the place of the cached one, an error changes nothing.
    pub open spec fn update(
        self,
        symbol: Seq<char>,
        outcome: Result<Seq<QuoteRecord>, FetchError>,
    ) -> StoreState {
        match outcome {
            Ok(series) => StoreState { history: self.history.insert(symbol, series), ..self },
            Err(_) => self,
        }
    }
}

/// The quote store.
pub struct QuotesStorage {
    history: StringHashMap<QuoteSeries>,
    last_update: StringHashMap<u64>,
    ttl: u64,
}

impl View for QuotesStorage {
    type V = StoreState;

    closed spec fn view(&self) -> StoreState {
        StoreState {
            history: self.history@.map_values(|series: QuoteSeries| series@),
            last_update: self.last_update@,
            ttl: self.ttl,
        }
    }
}

impl QuotesStorage {
    #[verifier::type_invariant]
    spec fn series_ordered(self) -> bool {
        forall|symbol: Seq<char>|
            self.history@.contains_key(symbol) ==> strictly_ascending(
                #[trigger] self.history@[symbol]@,
            )
    }

    /// An empty store whose series stay fresh for [`UPDATE_INTERVAL`].
    pub fn new() -> (store: QuotesStorage)
        ensures
            store@ == StoreState::empty(UPDATE_INTERVAL),
            store@.well_formed(),
    {
        QuotesStorage::with_update_interval(UPDATE_INTERVAL)
    }

    /// An empty store whose series stay fresh for `ttl` seconds.
    pub fn with_update_interval(ttl: u64) -> (store: QuotesStorage)
        ensures
            store@ == StoreState::empty(ttl),
            store@.well_formed(),
    {
        let store = QuotesStorage {
            history: StringHashMap::new(),
            last_update: StringHashMap::new(),
            ttl,
        };
        assert(store@.history =~= Map::empty());
        store
    }

    /// How long a fetch keeps a symbol fresh, in seconds.
    pub fn update_interval(&self) -> (ttl: u64)
        ensures
            ttl == self@.ttl,
    {
        self.ttl
    }

    /// A copy of the cached series of `symbol`, if there is one.
    pub fn get_quotes(&self, symbol: &str) -> (quotes: Option<QuoteSeries>)
        ensures
            quotes is Some <==> self@.get(symbol@) is Some,
            quotes matches Some(series) ==> self@.get(symbol@) == Some(series@),
            self@.well_formed(),
    {
        proof {
            use_type_invariant(self);
        }
        match self.history.get(symbol) {
            Some(series) => Some(series.clone()),
            None => None,
        }
    }

    /// The time of the last fetch of `symbol`, successful or not, if one was
    /// ever started.
    pub fn last_update(&self, symbol: &str) -> (time: Option<u64>)
        ensures
            time is Some <==> self@.last_update.contains_key(symbol@),
            time matches Some(t) ==> t == self@.last_update[symbol@],
    {
        match self.last_update.get(symbol) {
            Some(time) => Some(*time),
            None => None,
        }
    }

    /// Decides at time `now` whether `symbol` has to be fetched.
    ///
    /// A fresh symbol is skipped and the store stays as it is. Otherwise the
    /// store records `now` as the symbol's last fetch time before the fetch
    /// has happened, and the caller is told which window to fetch: from the
    /// previous fetch, or from the epoch if there was none, up to `now`.
    pub fn update_checked(&mut self, symbol: &str, now: u64) -> (action: RefreshAction)
        ensures
            final(self)@.well_formed(),
            action == old(self)@.action(symbol@, now),
            action matches RefreshAction::Fetch(window) ==> window.end == now && window.end
                - window.start == now - old(self)@.previous_fetch(symbol@),
            final(self)@ == old(self)@.update_checked(symbol@, now),
            final(self)@.history == old(self)@.history,
            forall|s: Seq<char>| #[trigger]
                old(self)@.last_update.contains_key(s) ==> final(self)@.last_update.contains_key(s)
                    && old(self)@.last_update[s] <= final(self)@.last_update[s],
    {
        proof {
            use_type_invariant(&*self);
        }
        let previous = match self.last_update.get(symbol) {
            Some(last) => {
                let last: u64 = *last;
                if now < last || now - last < self.ttl {
                    return RefreshAction::Skip;
                }
                last
            },
            None => EPOCH,
        };
        let mut last_update = StringHashMap::new();
        std::mem::swap(&mut last_update, &mut self.last_update);
        last_update.insert(symbol.to_owned(), now);
        self.last_update = last_update;
        RefreshAction::Fetch(fetch_window(now, now - previous))
    }

    /// Takes in the outcome of the fetch for `symbol`.
    ///
    /// A fetched series replaces the cached one as a whole. An error leaves
    /// the store exactly as it was.
    pub fn update(&mut self, symbol: &str, outcome: Result<QuoteSeries, FetchError>)
        ensures
            final(self)@.well_formed(),
            final(self)@ == old(self)@.update(symbol@, outcome_view(outcome)),
            final(self)@.last_update == old(self)@.last_update,
            outcome is Err ==> final(self)@ == old(self)@,
            outcome matches Ok(series) ==> final(self)@.get(symbol@) == Some(series@),
            forall|s: Seq<char>| s != symbol@ ==> #[trigger] final(self)@.get(s) == old(self)@.get(s),
    {
        proof {
            use_type_invariant(&*self);
        }
        match outcome {
            Ok(series) => {
                proof {
                    use_type_invariant(&series);
                }
                let mut history = StringHashMap::new();
                std::mem::swap(&mut history, &mut self.history);
                history.insert(symbol.to_owned(), series);
                self.history = history;
                assert(self@.history =~= old(self)@.history.insert(symbol@, series@));
            },
            Err(_) => {},
        }
    }
}

impl Default for QuotesStorage {
    fn default() -> (store: QuotesStorage)
        ensures
            store@ == StoreState::empty(UPDATE_INTERVAL),
    {
        QuotesStorage::new()
    }
}

/// Everything that lives behind the lock of the cache.
pub struct StorageInner {
    pub quotes: QuotesStorage,
}

impl Default for StorageInner {
    fn default() -> (inner: StorageInner)
        ensures
            inner.quotes@ == StoreState::empty(UPDATE_INTERVAL),
    {
        StorageInner { quotes: QuotesStorage::new() }
    }
}

} // verus!
