//! The dispatcher's decisions: which watcher gets which event after a poll,
//! which watchers are begun and which are reaped, what an actor does with
//! the outcome of an event, and how watchers are restored at startup.
//!
//! A watcher is known to the dispatcher by its key, the channel's login in
//! lower case.

use std::sync::Arc;
use vstd::prelude::*;
use crate::config::Config;
use crate::error::RequestError;
use crate::model::Stream;
use crate::keys::{key_set, keys_contains, keys_insert, keys_new, keys_remove, KeySet};
use crate::text::{lowercase, texts, to_lowercase};
use crate::watcher::{is_idle, next_state, outcome, restored_from};
use crate::watcher::{EventView, Lookups, PersistedRecord, StreamWatcher, WatcherState, WatcherView};

verus! {

/// Seconds between two polls.
pub const POLL_INTERVAL: u64 = 10;

/// How many events may wait in the queue of an actor.
pub const QUEUE_CAPACITY: usize = 2;

/// The key of the channel `login`.
pub fn channel_key(login: &str) -> (out: String)
    ensures
        out@ == lowercase(login@),
{
    to_lowercase(login)
}

/// Where an event goes.
#[derive(Debug, PartialEq, Eq)]
pub enum Route {
    /// The snapshot at place `stream` of the batch goes to the watcher `key`,
    /// which is to be begun first where `spawn` is set.
    Live { key: String, stream: usize, spawn: bool },
    /// The watcher `key` is told that its channel is offline.
    Offline { key: String },
}

/// Mathematical value of a [`Route`].
pub enum RouteView {
    Live { key: Seq<char>, stream: int, spawn: bool },
    Offline { key: Seq<char> },
}

impl View for Route {
    type V = RouteView;

    open spec fn view(&self) -> RouteView {
        match self {
            Route::Live { key, stream, spawn } => RouteView::Live {
                key: key@,
                stream: *stream as int,
                spawn: *spawn,
            },
            Route::Offline { key } => RouteView::Offline { key: key@ },
        }
    }
}

/// Mathematical value of a list of routes.
pub open spec fn route_views(routes: Seq<Route>) -> Seq<RouteView> {
    routes.map_values(|r: Route| r@)
}

/// The keys of the channels of `streams`, in order.
pub open spec fn present_keys(streams: Seq<Stream>) -> Seq<Seq<char>> {
    streams.map_values(|s: Stream| lowercase(s.user_login@))
}

/// The keys of the configured channels `logins`, in order.
pub open spec fn configured_keys(logins: Seq<String>) -> Seq<Seq<char>> {
    logins.map_values(|l: String| lowercase(l@))
}

/// The keys of the running watchers after the first `n` snapshots were
/// routed: each channel that had none gets one.
pub open spec fn active_after(active: Set<Seq<char>>, present: Seq<Seq<char>>, n: int) -> Set<
    Seq<char>,
>
    decreases n,
{
    if n <= 0 {
        active
    } else {
        active_after(active, present, n - 1).insert(present[n - 1])
    }
}

/// The routes of the first `n` snapshots: each goes to the watcher of its
/// channel, which is begun where none runs yet.
pub open spec fn live_routes(active: Set<Seq<char>>, present: Seq<Seq<char>>, n: int) -> Seq<
    RouteView,
>
    decreases n,
{
    if n <= 0 {
        Seq::empty()
    } else {
        live_routes(active, present, n - 1).push(
            RouteView::Live {
                key: present[n - 1],
                stream: n - 1,
                spawn: !active_after(active, present, n - 1).contains(present[n - 1]),
            },
        )
    }
}

/// The routes that tell watchers that their channel is offline, for the
/// first `n` configured channels: one for each channel that is absent from
/// the batch and has a running watcher, once for each key.
pub open spec fn offline_routes(
    active: Set<Seq<char>>,
    configured: Seq<Seq<char>>,
    present: Seq<Seq<char>>,
    n: int,
) -> Seq<RouteView>
    decreases n,
{
    if n <= 0 {
        Seq::empty()
    } else {
        let before = offline_routes(active, configured, present, n - 1);
        let key = configured[n - 1];
        if !present.contains(key) && active.contains(key) && !configured.subrange(
            0,
            n - 1,
        ).contains(key) {
            before.push(RouteView::Offline { key })
        } else {
            before
        }
    }
}

/// The keys among the first `n` of `keys`.
pub open spec fn keys_upto(keys: Seq<Seq<char>>, n: int) -> Set<Seq<char>>
    decreases n,
{
    if n <= 0 {
        Set::empty()
    } else {
        keys_upto(keys, n - 1).insert(keys[n - 1])
    }
}

/// [`keys_upto`] holds exactly the keys that stand among the first `n`.
pub proof fn lemma_keys_upto(keys: Seq<Seq<char>>, n: int)
    requires
        0 <= n <= keys.len(),
    ensures
        forall|k: Seq<char>|
            #![trigger keys_upto(keys, n).contains(k)]
            #![trigger keys.subrange(0, n).contains(k)]
            keys_upto(keys, n).contains(k) <==> keys.subrange(0, n).contains(k),
    decreases n,
{
    if n > 0 {
        lemma_keys_upto(keys, n - 1);
        let head = keys.subrange(0, n - 1);
        let upto = keys.subrange(0, n);
        assert forall|k: Seq<char>|
            #![trigger keys_upto(keys, n).contains(k)]
            #![trigger upto.contains(k)]
            keys_upto(keys, n).contains(k) <==> upto.contains(k) by {
            if keys_upto(keys, n).contains(k) {
                if k == keys[n - 1] {
                    assert(upto[n - 1] == k);
                } else {
                    assert(keys_upto(keys, n - 1).contains(k));
                    assert(head.contains(k));
                    let i = choose|i: int| 0 <= i < head.len() && head[i] == k;
                    assert(upto[i] == k);
                }
            }
            if upto.contains(k) {
                let i = choose|i: int| 0 <= i < upto.len() && upto[i] == k;
                if i < n - 1 {
                    assert(head[i] == k);
                    assert(head.contains(k));
                    assert(keys_upto(keys, n - 1).contains(k));
                }
            }
        }
    } else {
        assert(keys.subrange(0, 0) =~= Seq::<Seq<char>>::empty());
    }
}

/// The running watchers, by key.
#[derive(Debug)]
pub struct Dispatcher {
    /// The keys of the running watchers.
    pub active: KeySet,
}

impl View for Dispatcher {
    type V = Set<Seq<char>>;

    open spec fn view(&self) -> Set<Seq<char>> {
        key_set(self.active)
    }
}

impl Dispatcher {
    /// A dispatcher without watchers.
    pub fn new() -> (out: Self)
        ensures
            out@ == Set::<Seq<char>>::empty(),
    {
        Dispatcher { active: keys_new() }
    }

    /// Whether the watcher `key` runs.
    pub fn is_active(&self, key: &str) -> (out: bool)
        ensures
            out == self@.contains(key@),
    {
        keys_contains(&self.active, key)
    }

    /// Takes note that the watcher `key` runs. Tells whether it is new.
    pub fn attach(&mut self, key: String) -> (out: bool)
        ensures
            final(self)@ == old(self)@.insert(key@),
            out == !old(self)@.contains(key@),
    {
        keys_insert(&mut self.active, key)
    }

    /// Forgets the watcher `key`: its session ended and its queue is closed.
    /// Tells whether it ran.
    pub fn reap(&mut self, key: &str) -> (out: bool)
        ensures
            final(self)@ == old(self)@.remove(key@),
            !final(self)@.contains(key@),
            out == old(self)@.contains(key@),
    {
        keys_remove(&mut self.active, key)
    }

    /// Routes the events of one poll, given the keys of the channels in the
    /// batch, `present`, and of the configured channels, `configured`.
    ///
    /// Every snapshot goes to the watcher of its channel, in the order of
    /// the batch; a channel without a watcher gets one. Then every
    /// configured channel that the batch lacks and whose watcher runs is told
    /// that it is offline. Channels without a watcher that are offline are
    /// left alone.
    pub fn route(&mut self, configured: &Vec<String>, present: &Vec<String>) -> (out: Vec<Route>)
        ensures
            final(self)@ == active_after(old(self)@, texts(present@), present.len() as int),
            route_views(out@) == live_routes(old(self)@, texts(present@), present.len() as int)
                + offline_routes(
                final(self)@,
                texts(configured@),
                texts(present@),
                configured.len() as int,
            ),
    {
        let ghost began = self@;
        let ghost all = texts(present@);
        let ghost names = texts(configured@);
        let mut routes: Vec<Route> = Vec::new();
        let mut seen = keys_new();
        let mut i: usize = 0;
        assert(route_views(routes@) =~= live_routes(began, all, 0));
        while i < present.len()
            invariant
                i <= present.len(),
                began == old(self)@,
                all == texts(present@),
                self@ == active_after(began, all, i as int),
                key_set(seen) == keys_upto(all, i as int),
                route_views(routes@) == live_routes(began, all, i as int),
            decreases present.len() - i,
        {
            let ghost routed = route_views(routes@);
            let key: &String = &present[i];
            assert(all[i as int] == key@);
            let spawn = self.attach(key.clone());
            let _ = keys_insert(&mut seen, key.clone());
            let route = Route::Live { key: key.clone(), stream: i, spawn };
            routes.push(route);
            assert(route_views(routes@) =~= routed.push(route@));
            i = i + 1;
        }
        proof {
            lemma_keys_upto(all, all.len() as int);
            assert(all.subrange(0, all.len() as int) =~= all);
        }
        let ghost lives = route_views(routes@);
        let mut told = keys_new();
        let mut n: usize = 0;
        assert(route_views(routes@) =~= lives + offline_routes(self@, names, all, 0));
        while n < configured.len()
            invariant
                n <= configured.len(),
                all == texts(present@),
                names == texts(configured@),
                forall|k: Seq<char>| key_set(seen).contains(k) <==> all.contains(k),
                key_set(told) == keys_upto(names, n as int),
                route_views(routes@) == lives + offline_routes(self@, names, all, n as int),
            decreases configured.len() - n,
        {
            let ghost routed = route_views(routes@);
            let key: &String = &configured[n];
            assert(names[n as int] == key@);
            proof {
                lemma_keys_upto(names, n as int);
            }
            let first = keys_insert(&mut told, key.clone());
            if first && !keys_contains(&seen, key.as_str()) && self.is_active(key.as_str()) {
                let route = Route::Offline { key: key.clone() };
                routes.push(route);
                assert(route_views(routes@) =~= routed.push(route@));
                assert(route_views(routes@) =~= lives + offline_routes(self@, names, all, n + 1));
            }
            n = n + 1;
        }
        routes
    }

    /// Routes the outcome of one poll: `streams` is the batch that came back
    /// for the configured channels `logins`. Channels are told apart by
    /// their keys; see [`Dispatcher::route`].
    pub fn poll(&mut self, logins: &Vec<String>, streams: &Vec<Stream>) -> (out: Vec<Route>)
        ensures
            final(self)@ == active_after(
                old(self)@,
                present_keys(streams@),
                streams.len() as int,
            ),
            route_views(out@) == live_routes(
                old(self)@,
                present_keys(streams@),
                streams.len() as int,
            ) + offline_routes(
                final(self)@,
                configured_keys(logins@),
                present_keys(streams@),
                logins.len() as int,
            ),
    {
        let mut present: Vec<String> = Vec::new();
        let mut i: usize = 0;
        assert(texts(present@) =~= present_keys(streams@).subrange(0, 0));
        while i < streams.len()
            invariant
                i <= streams.len(),
                texts(present@) == present_keys(streams@).subrange(0, i as int),
            decreases streams.len() - i,
        {
            let ghost seen = texts(present@);
            let key = channel_key(streams[i].user_login.as_str());
            present.push(key);
            assert(texts(present@) =~= seen.push(present_keys(streams@)[i as int]));
            assert(texts(present@) =~= present_keys(streams@).subrange(0, i + 1));
            i = i + 1;
        }
        assert(present_keys(streams@).subrange(0, streams.len() as int) =~= present_keys(
            streams@,
        ));
        let mut configured: Vec<String> = Vec::new();
        let mut n: usize = 0;
        assert(texts(configured@) =~= configured_keys(logins@).subrange(0, 0));
        while n < logins.len()
            invariant
                n <= logins.len(),
                texts(configured@) == configured_keys(logins@).subrange(0, n as int),
            decreases logins.len() - n,
        {
            let ghost seen = texts(configured@);
            let key = channel_key(logins[n].as_str());
            configured.push(key);
            assert(texts(configured@) =~= seen.push(configured_keys(logins@)[n as int]));
            assert(texts(configured@) =~= configured_keys(logins@).subrange(0, n + 1));
            n = n + 1;
        }
        assert(configured_keys(logins@).subrange(0, logins.len() as int) =~= configured_keys(
            logins@,
        ));
        self.route(&configured, &present)
    }
}

/// What the actor of a watcher does after an event.
#[derive(Clone, Copy, Debug, PartialEq, Eq, Structural)]
pub enum ActorStep {
    /// Wait for the next event.
    Continue,
    /// Persist the state, then wait for the next event.
    Persist,
    /// The session ended: delete the persisted state and close the queue.
    Stop,
}

/// What the actor does after an event with the outcome `outcome`: it stops
/// exactly when the session ended, persists a state that changed if
/// persistence is on, and goes on otherwise, also after a failure, which
/// left the state as it was.
pub open spec fn step_after(outcome: Result<WatcherState, RequestError>, cache_enabled: bool) -> ActorStep {
    match outcome {
        Ok(WatcherState::Ended) => ActorStep::Stop,
        Ok(WatcherState::Updated) => if cache_enabled {
            ActorStep::Persist
        } else {
            ActorStep::Continue
        },
        Ok(WatcherState::Unchanged) => ActorStep::Continue,
        Err(_) => ActorStep::Continue,
    }
}

/// Decides what the actor of a watcher does after an event.
pub fn actor_step(outcome: &Result<WatcherState, RequestError>, cache_enabled: bool) -> (out:
    ActorStep)
    ensures
        out == step_after(*outcome, cache_enabled),
{
    match outcome {
        Ok(WatcherState::Ended) => ActorStep::Stop,
        Ok(WatcherState::Updated) => if cache_enabled {
            ActorStep::Persist
        } else {
            ActorStep::Continue
        },
        Ok(WatcherState::Unchanged) => ActorStep::Continue,
        Err(_) => ActorStep::Continue,
    }
}

/// What reading the persisted state of a channel came to.
#[derive(Debug)]
pub enum ReadOutcome {
    /// A record.
    Found(PersistedRecord),
    /// No record is persisted.
    Missing,
    /// The store could not be read, with the reason.
    Unreadable(String),
    /// What is persisted is no record, with the parser's words.
    Malformed(String),
}

/// Restores the watcher of a channel at startup from what was read of its
/// persisted state: a record yields the watcher in the state it records,
/// with the settings `config`; anything else yields none, and the channel
/// starts cold.
pub fn restore(read: ReadOutcome, config: Arc<Config>) -> (out: Option<StreamWatcher>)
    ensures
        match read {
            ReadOutcome::Found(record) => out matches Some(w) && w@ == restored_from(record@)
                && w.config == config,
            _ => out is None,
        },
{
    match read {
        ReadOutcome::Found(record) => Some(StreamWatcher::from_record(record, config)),
        _ => None,
    }
}

/// The record that a read came to, if it came to one.
pub open spec fn record_read(read: ReadOutcome) -> Option<crate::watcher::RecordView> {
    match read {
        ReadOutcome::Found(record) => Some(record@),
        _ => None,
    }
}

/// The keys of the running watchers after the first `n` reads were taken:
/// each key whose read came to a record runs.
pub open spec fn active_restored(
    active: Set<Seq<char>>,
    reads: Seq<(String, ReadOutcome)>,
    n: int,
) -> Set<Seq<char>>
    decreases n,
{
    if n <= 0 {
        active
    } else if record_read(reads[n - 1].1) is Some {
        active_restored(active, reads, n - 1).insert(reads[n - 1].0@)
    } else {
        active_restored(active, reads, n - 1)
    }
}

/// Whether the read at place `at` restores a watcher: it came to a record,
/// and no watcher of that key runs yet.
pub open spec fn restores(
    active: Set<Seq<char>>,
    reads: Seq<(String, ReadOutcome)>,
    at: int,
) -> bool {
    record_read(reads[at].1) is Some && !active_restored(active, reads, at).contains(reads[at].0@)
}

/// The watchers restored from the first `n` reads, each with its key, in
/// the state that its record holds.
pub open spec fn watchers_restored(
    active: Set<Seq<char>>,
    reads: Seq<(String, ReadOutcome)>,
    n: int,
) -> Seq<(Seq<char>, WatcherView)>
    decreases n,
{
    if n <= 0 {
        Seq::empty()
    } else if restores(active, reads, n - 1) {
        watchers_restored(active, reads, n - 1).push(
            (reads[n - 1].0@, restored_from(record_read(reads[n - 1].1)->0)),
        )
    } else {
        watchers_restored(active, reads, n - 1)
    }
}

/// Mathematical value of a list of watchers with their keys.
pub open spec fn keyed_views(items: Seq<(String, StreamWatcher)>) -> Seq<(Seq<char>, WatcherView)> {
    items.map_values(|p: (String, StreamWatcher)| (p.0@, p.1@))
}

impl Dispatcher {
    /// Restores the watchers at startup from what was read of the persisted
    /// state of each configured channel, given by key. Every read that came
    /// to a record yields the watcher of that key in its recorded state, with
    /// the settings `config`, and the key runs from then on; a key that
    /// already runs is not restored again. A read that found nothing, failed
    /// or met a malformed document adds nothing: that channel starts cold.
    pub fn restore_all(&mut self, reads: Vec<(String, ReadOutcome)>, config: &Arc<Config>) -> (out:
        Vec<(String, StreamWatcher)>)
        ensures
            final(self)@ == active_restored(old(self)@, reads@, reads.len() as int),
            keyed_views(out@) == watchers_restored(old(self)@, reads@, reads.len() as int),
            forall|i: int| 0 <= i < out.len() ==> (#[trigger] out@[i]).1.config == *config,
            forall|i: int| 0 <= i < out.len() ==> final(self)@.contains((#[trigger] out@[i]).0@),
    {
        let ghost began = self@;
        let ghost all = reads@;
        let mut rest = reads;
        let mut out: Vec<(String, StreamWatcher)> = Vec::new();
        let mut n: usize = 0;
        let total: usize = rest.len();
        assert(keyed_views(out@) =~= watchers_restored(began, all, 0));
        while n < total
            invariant
                n <= total,
                total == all.len(),
                rest@ == all.subrange(n as int, total as int),
                self@ == active_restored(began, all, n as int),
                keyed_views(out@) == watchers_restored(began, all, n as int),
                forall|i: int| 0 <= i < out.len() ==> (#[trigger] out@[i]).1.config == *config,
                forall|i: int| 0 <= i < out.len() ==> self@.contains((#[trigger] out@[i]).0@),
            decreases total - n,
        {
            let ghost before = keyed_views(out@);
            assert(rest@[0] == all[n as int]);
            let (key, read) = rest.remove(0);
            assert(rest@ =~= all.subrange(n + 1, total as int));
            match restore(read, Arc::clone(config)) {
                Some(watcher) => {
                    if self.attach(key.clone()) {
                        let pair = (key, watcher);
                        out.push(pair);
                        assert(keyed_views(out@) =~= before.push((pair.0@, pair.1@)));
                    }
                },
                None => {},
            }
            n = n + 1;
        }
        out
    }
}

/// An actor stops only after an event that left its watcher idle: a watcher
/// that holds segments is never without its actor, and the actor of a
/// watcher that holds segments is never reaped.
pub proof fn lemma_stopped_watcher_is_idle(
    cfg: &Config,
    w: WatcherView,
    event: EventView,
    now: u64,
    found: Lookups,
    cache_enabled: bool,
)
    ensures
        step_after(Ok(outcome(w, event, now)), cache_enabled) is Stop ==> is_idle(
            next_state(cfg, w, event, now, found),
        ),
        next_state(cfg, w, event, now, found).segments.len() > 0 ==> !(step_after(
            Ok(outcome(w, event, now)),
            cache_enabled,
        ) is Stop),
        forall|e: RequestError| !(#[trigger] step_after(Err(e), cache_enabled) is Stop),
{
}

/// The key of the watcher that a route leads to.
pub open spec fn route_key(r: RouteView) -> Seq<char> {
    match r {
        RouteView::Live { key, .. } => key,
        RouteView::Offline { key } => key,
    }
}

/// Whether `r` hands the snapshot at place `stream` to the watcher `key`.
pub open spec fn hands_snapshot(r: RouteView, key: Seq<char>, stream: int) -> bool {
    match r {
        RouteView::Live { key: k, stream: s, .. } => k == key && s == stream,
        RouteView::Offline { .. } => false,
    }
}

/// Every snapshot of a batch is routed exactly once, in the order of the
/// batch, to the watcher of its channel, which runs from then on; and no
/// watcher that ran before is lost.
pub proof fn lemma_live_routes_cover_the_batch(
    active: Set<Seq<char>>,
    present: Seq<Seq<char>>,
    n: int,
)
    requires
        0 <= n <= present.len(),
    ensures
        live_routes(active, present, n).len() == n,
        forall|i: int|
            0 <= i < n ==> hands_snapshot(
                #[trigger] live_routes(active, present, n)[i],
                present[i],
                i,
            ),
        forall|i: int| 0 <= i < n ==> active_after(active, present, n).contains(#[trigger] present[i]),
        forall|k: Seq<char>| active.contains(k) ==> active_after(active, present, n).contains(k),
    decreases n,
{
    if n > 0 {
        lemma_live_routes_cover_the_batch(active, present, n - 1);
        let routes = live_routes(active, present, n);
        assert forall|i: int| 0 <= i < n implies hands_snapshot(
            #[trigger] routes[i],
            present[i],
            i,
        ) by {
            if i < n - 1 {
                assert(routes[i] == live_routes(active, present, n - 1)[i]);
            }
        }
    }
}

/// A watcher is told that its channel is offline only where it runs, its
/// channel is configured and the batch lacks it; and each such watcher is
/// told so.
pub proof fn lemma_offline_routes_are_due(
    active: Set<Seq<char>>,
    configured: Seq<Seq<char>>,
    present: Seq<Seq<char>>,
    n: int,
)
    requires
        0 <= n <= configured.len(),
    ensures
        forall|i: int|
            0 <= i < offline_routes(active, configured, present, n).len() ==> {
                let r = #[trigger] offline_routes(active, configured, present, n)[i];
                &&& r is Offline
                &&& active.contains(route_key(r))
                &&& !present.contains(route_key(r))
                &&& configured.subrange(0, n).contains(route_key(r))
            },
        forall|m: int|
            0 <= m < n && active.contains(configured[m]) && !present.contains(configured[m])
                ==> offline_routes(active, configured, present, n).contains(
                RouteView::Offline { key: #[trigger] configured[m] },
            ),
    decreases n,
{
    if n > 0 {
        lemma_offline_routes_are_due(active, configured, present, n - 1);
        let before = offline_routes(active, configured, present, n - 1);
        let routes = offline_routes(active, configured, present, n);
        let key = configured[n - 1];
        let head = configured.subrange(0, n - 1);
        assert forall|i: int| 0 <= i < routes.len() implies ({
            let r = #[trigger] routes[i];
            &&& r is Offline
            &&& active.contains(route_key(r))
            &&& !present.contains(route_key(r))
            &&& configured.subrange(0, n).contains(route_key(r))
        }) by {
            if i < before.len() {
                assert(routes[i] == before[i]);
                let k = route_key(routes[i]);
                let j = choose|j: int| 0 <= j < head.len() && head[j] == k;
                assert(configured.subrange(0, n)[j] == k);
            } else {
                assert(configured.subrange(0, n)[n - 1] == key);
            }
        }
        assert forall|m: int|
            0 <= m < n && active.contains(configured[m]) && !present.contains(
                configured[m],
            ) implies routes.contains(RouteView::Offline { key: #[trigger] configured[m] }) by {
            let want = RouteView::Offline { key: configured[m] };
            if m < n - 1 {
                assert(before.contains(want));
                let i = choose|i: int| 0 <= i < before.len() && before[i] == want;
                assert(routes[i] == want);
            } else if head.contains(key) {
                let j = choose|j: int| 0 <= j < head.len() && head[j] == key;
                assert(configured[j] == key);
                assert(before.contains(RouteView::Offline { key: configured[j] }));
                let i = choose|i: int| 0 <= i < before.len() && before[i] == want;
                assert(routes[i] == want);
            } else {
                assert(routes[routes.len() - 1] == want);
            }
        }
    }
}

} // verus!
