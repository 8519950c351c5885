//! Sequences of calls on a store, and what holds of the store after any of them.

use vstd::prelude::*;

use crate::quote::{strictly_ascending, QuoteRecord};
use crate::requests::FetchError;
use crate::storage::{FetchWindow, RefreshAction, StoreState, EPOCH};

verus! {

/// One call that changes a store.
pub enum StoreEvent {
    /// A refresh of `symbol` was asked for at `now`.
    Refresh { symbol: Seq<char>, now: u64 },
    /// The fetch for `symbol` ended in `outcome`.
    Complete { symbol: Seq<char>, outcome: Result<Seq<QuoteRecord>, FetchError> },
}

/// The event is a fetch for `symbol` that brought a series.
pub open spec fn succeeds_for(event: StoreEvent, symbol: Seq<char>) -> bool {
    event matches StoreEvent::Complete { symbol: s, outcome } && s == symbol && outcome is Ok
}

/// The event is a refresh of `symbol`.
pub open spec fn refreshes(event: StoreEvent, symbol: Seq<char>) -> bool {
    event matches StoreEvent::Refresh { symbol: s, .. } && s == symbol
}

/// No event in `events` is a successful fetch for `symbol`.
pub open spec fn no_success_for(events: Seq<StoreEvent>, symbol: Seq<char>) -> bool {
    forall|i: int| 0 <= i < events.len() ==> !succeeds_for(#[trigger] events[i], symbol)
}

/// No event in `events` is a refresh of `symbol`.
pub open spec fn no_refresh_of(events: Seq<StoreEvent>, symbol: Seq<char>) -> bool {
    forall|i: int| 0 <= i < events.len() ==> !refreshes(#[trigger] events[i], symbol)
}

/// The event is no fetch that brought anything but a strictly ascending
/// series.
pub open spec fn brings_ordered(event: StoreEvent) -> bool {
    event matches StoreEvent::Complete { outcome: Ok(series), .. } ==> strictly_ascending(series)
}

/// Every series that a fetch in `events` brought is strictly ascending.
pub open spec fn brings_ordered_series(events: Seq<StoreEvent>) -> bool {
    forall|i: int| 0 <= i < events.len() ==> brings_ordered(#[trigger] events[i])
}

impl StoreState {
    /// The store after one event.
    pub open spec fn step(self, event: StoreEvent) -> StoreState {
        match event {
            StoreEvent::Refresh { symbol, now } => self.update_checked(symbol, now),
            StoreEvent::Complete { symbol, outcome } => self.update(symbol, outcome),
        }
    }

    /// The store after all of `events`, first to last.
    pub open spec fn run(self, events: Seq<StoreEvent>) -> StoreState
        decreases events.len(),
    {
        if events.len() == 0 {
            self
        } else {
            self.run(events.drop_last()).step(events.last())
        }
    }
}

/// No call changes the time to live.
pub proof fn ttl_is_fixed(state: StoreState, events: Seq<StoreEvent>)
    ensures
        state.run(events).ttl == state.ttl,
    decreases events.len(),
{
    if events.len() > 0 {
        ttl_is_fixed(state, events.drop_last());
    }
}

/// A store whose series are strictly ascending stays so through any calls
/// that hand it strictly ascending series.
pub proof fn cached_series_stay_ordered(state: StoreState, events: Seq<StoreEvent>)
    requires
        state.well_formed(),
        brings_ordered_series(events),
    ensures
        state.run(events).well_formed(),
    decreases events.len(),
{
    if events.len() > 0 {
        let earlier = events.drop_last();
        assert forall|i: int| 0 <= i < earlier.len() implies brings_ordered(
            #[trigger] earlier[i],
        ) by {
            assert(earlier[i] == events[i]);
        }
        cached_series_stay_ordered(state, earlier);
        assert(brings_ordered(events[events.len() - 1]));
    }
}

/// No call removes a cached series or a last fetch time.
pub proof fn entries_are_never_deleted(
    state: StoreState,
    events: Seq<StoreEvent>,
    symbol: Seq<char>,
)
    ensures
        state.history.contains_key(symbol) ==> state.run(events).history.contains_key(symbol),
        state.last_update.contains_key(symbol) ==> state.run(events).last_update.contains_key(
            symbol,
        ),
    decreases events.len(),
{
    if events.len() > 0 {
        entries_are_never_deleted(state, events.drop_last(), symbol);
    }
}

/// One call leaves the cached series of a symbol as it was, or puts a whole
/// fetched series in its place: a reader between two calls never sees
/// anything else.
pub proof fn step_keeps_or_replaces(state: StoreState, event: StoreEvent, symbol: Seq<char>)
    ensures
        match event {
            StoreEvent::Complete { symbol: fetched, outcome: Ok(series) } if fetched == symbol => {
                state.step(event).get(symbol) == Some(series)
            },
            _ => state.step(event).get(symbol) == state.get(symbol),
        },
{
}

/// The cached series of a symbol stays what it is through any calls among
/// which no fetch for that symbol succeeds.
pub proof fn series_changes_only_on_success(
    state: StoreState,
    events: Seq<StoreEvent>,
    symbol: Seq<char>,
)
    requires
        no_success_for(events, symbol),
    ensures
        state.run(events).get(symbol) == state.get(symbol),
    decreases events.len(),
{
    if events.len() > 0 {
        let earlier = events.drop_last();
        assert forall|i: int| 0 <= i < earlier.len() implies !succeeds_for(
            #[trigger] earlier[i],
            symbol,
        ) by {
            assert(earlier[i] == events[i]);
        }
        series_changes_only_on_success(state, earlier, symbol);
        assert(!succeeds_for(events[events.len() - 1], symbol));
        step_keeps_or_replaces(state.run(earlier), events.last(), symbol);
    }
}

/// A symbol has no cached series until a fetch for it has succeeded, whatever
/// else was called on the store since it was created.
pub proof fn no_series_before_first_success(
    ttl: u64,
    events: Seq<StoreEvent>,
    symbol: Seq<char>,
)
    requires
        no_success_for(events, symbol),
    ensures
        StoreState::empty(ttl).run(events).get(symbol) is None,
{
    series_changes_only_on_success(StoreState::empty(ttl), events, symbol);
}

/// After a fetch for a symbol has succeeded, the store returns exactly the
/// fetched series until the next fetch for that symbol succeeds.
pub proof fn get_returns_last_fetched_series(
    state: StoreState,
    symbol: Seq<char>,
    series: Seq<QuoteRecord>,
    later: Seq<StoreEvent>,
)
    requires
        no_success_for(later, symbol),
    ensures
        state.update(symbol, Ok(series)).run(later).get(symbol) == Some(series),
{
    series_changes_only_on_success(state.update(symbol, Ok(series)), later, symbol);
}

/// The last fetch time of a symbol stays what it is through any calls among
/// which there is no refresh of that symbol: the outcome of a fetch, success
/// or failure, does not touch it.
pub proof fn last_update_changes_only_on_refresh(
    state: StoreState,
    events: Seq<StoreEvent>,
    symbol: Seq<char>,
)
    requires
        no_refresh_of(events, symbol),
    ensures
        state.run(events).last_update.contains_key(symbol) == state.last_update.contains_key(
            symbol,
        ),
        state.run(events).last_update[symbol] == state.last_update[symbol],
        state.run(events).ttl == state.ttl,
    decreases events.len(),
{
    if events.len() > 0 {
        let earlier = events.drop_last();
        assert forall|i: int| 0 <= i < earlier.len() implies !refreshes(
            #[trigger] earlier[i],
            symbol,
        ) by {
            assert(earlier[i] == events[i]);
        }
        last_update_changes_only_on_refresh(state, earlier, symbol);
        assert(!refreshes(events[events.len() - 1], symbol));
    }
}

/// The last fetch time of a symbol never goes back, whatever is called.
pub proof fn last_update_never_decreases(
    state: StoreState,
    events: Seq<StoreEvent>,
    symbol: Seq<char>,
)
    requires
        state.last_update.contains_key(symbol),
    ensures
        state.run(events).last_update.contains_key(symbol),
        state.last_update[symbol] <= state.run(events).last_update[symbol],
    decreases events.len(),
{
    if events.len() > 0 {
        last_update_never_decreases(state, events.drop_last(), symbol);
    }
}

/// Of two refreshes of a symbol less than the time to live apart, at most one
/// asks for a fetch. The second is skipped, and leaves the store as it is,
/// exactly when the first asked for a fetch or the symbol is still fresh
/// from an earlier one; it makes no difference whether the first fetch has
/// ended by then, nor how.
pub proof fn second_refresh_within_ttl_is_skipped(
    state: StoreState,
    symbol: Seq<char>,
    first: u64,
    between: Seq<StoreEvent>,
    second: u64,
)
    requires
        second - first < state.ttl,
        no_refresh_of(between, symbol),
    ensures
        ({
            let before = state.update_checked(symbol, first).run(between);
            &&& !(state.action(symbol, first) is Fetch && before.action(symbol, second) is Fetch)
            &&& before.action(symbol, second) is Skip <==> state.action(symbol, first) is Fetch
                || state.is_fresh(symbol, second)
            &&& before.action(symbol, second) is Skip ==> before.update_checked(symbol, second)
                == before
        }),
{
    last_update_changes_only_on_refresh(state.update_checked(symbol, first), between, symbol);
}

/// Once the time to live has passed since the last fetch of a symbol was
/// started, the next refresh asks for a fetch, whether that last fetch
/// succeeded or failed: its window runs from the last fetch to now, and now
/// becomes the last fetch time.
pub proof fn refresh_after_ttl_fetches(
    state: StoreState,
    symbol: Seq<char>,
    last: u64,
    between: Seq<StoreEvent>,
    now: u64,
)
    requires
        state.action(symbol, last) is Fetch,
        no_refresh_of(between, symbol),
        now - last >= state.ttl,
    ensures
        ({
            let before = state.update_checked(symbol, last).run(between);
            &&& before.action(symbol, now) == RefreshAction::Fetch(
                FetchWindow { start: last, end: now },
            )
            &&& before.update_checked(symbol, now).last_update.contains_key(symbol)
            &&& before.update_checked(symbol, now).last_update[symbol] == now
        }),
{
    last_update_changes_only_on_refresh(state.update_checked(symbol, last), between, symbol);
}

/// The first refresh of a symbol asks for everything since the epoch.
pub proof fn first_refresh_fetches_from_epoch(
    ttl: u64,
    events: Seq<StoreEvent>,
    symbol: Seq<char>,
    now: u64,
)
    requires
        no_refresh_of(events, symbol),
    ensures
        StoreState::empty(ttl).run(events).action(symbol, now) == RefreshAction::Fetch(
            FetchWindow { start: EPOCH, end: now },
        ),
{
    last_update_changes_only_on_refresh(StoreState::empty(ttl), events, symbol);
}

/// A fetch that fails leaves every cached series exactly as it was, while the
/// symbol's last fetch time has moved to the time of the attempt, so the next
/// attempt waits a full time to live.
pub proof fn failed_fetch_keeps_series_and_delays_retry(
    state: StoreState,
    symbol: Seq<char>,
    now: u64,
    error: FetchError,
    retry: u64,
)
    requires
        state.action(symbol, now) is Fetch,
    ensures
        ({
            let after = state.update_checked(symbol, now).update(symbol, Err(error));
            &&& after.history == state.history
            &&& after.last_update.contains_key(symbol)
            &&& after.last_update[symbol] == now
            &&& state.previous_fetch(symbol) <= now
            &&& state.last_update.contains_key(symbol) && state.ttl > 0 ==> state.last_update[symbol]
                < now
            &&& after.action(symbol, retry) is Skip <==> retry - now < state.ttl
        }),
{
}

} // verus!
