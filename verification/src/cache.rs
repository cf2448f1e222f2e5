//! The cache of categories: the most recently used hundred, kept by the
//! `lru` crate.

use vstd::prelude::*;
use crate::model::{empty_game, Game, GameView};

verus! {

/// `lru::LruCache`, as an opaque value.
#[verifier::external_type_specification]
#[verifier::external_body]
#[verifier::reject_recursive_types(K)]
#[verifier::reject_recursive_types(V)]
#[verifier::reject_recursive_types(S)]
pub struct ExLruCache<K, V, S>(lru::LruCache<K, V, S>);

/// The hasher that `lru` uses unless told otherwise, as an opaque value.
#[verifier::external_type_specification]
#[verifier::external_body]
pub struct ExDefaultHasher(lru::DefaultHasher);

/// One entry of the cache: the key, then the id and the name of the category.
pub type Entry = (Seq<char>, (Seq<char>, Seq<char>));

/// The entries that a cache holds, the most recently used first.
pub uninterp spec fn cache_entries(cache: lru::LruCache<String, (String, String)>) -> Seq<Entry>;

/// The number of entries that a cache was made to hold at most.
pub uninterp spec fn cache_limit(cache: lru::LruCache<String, (String, String)>) -> nat;

/// The place of the first entry of `entries` with the key `key`, if there is one.
pub open spec fn find_key(entries: Seq<Entry>, key: Seq<char>) -> Option<int>
    decreases entries.len(),
{
    if entries.len() == 0 {
        None
    } else if entries[0].0 == key {
        Some(0)
    } else {
        match find_key(entries.drop_first(), key) {
            Some(i) => Some(i + 1),
            None => None,
        }
    }
}

/// The entries after the one at `at` was used: it comes first, the others keep their order.
pub open spec fn touched(entries: Seq<Entry>, at: int) -> Seq<Entry> {
    seq![entries[at]] + entries.remove(at)
}

/// The entries after `key` was pushed with `value` into a cache of at most
/// `limit` entries: the new entry comes first; it takes the place of the
/// entry with the same key if there is one, else of the least recently used
/// entry if the cache holds `limit` entries.
pub open spec fn pushed(entries: Seq<Entry>, limit: nat, key: Seq<char>, value: (
    Seq<char>,
    Seq<char>,
)) -> Seq<Entry> {
    match find_key(entries, key) {
        Some(at) => seq![(key, value)] + entries.remove(at),
        None => if entries.len() == limit {
            seq![(key, value)] + entries.drop_last()
        } else {
            seq![(key, value)] + entries
        },
    }
}

/// The entry that a push of `key` puts out of the cache, if any.
pub open spec fn displaced(entries: Seq<Entry>, limit: nat, key: Seq<char>) -> Option<Entry> {
    match find_key(entries, key) {
        Some(at) => Some((key, entries[at].1)),
        None => if entries.len() == limit {
            Some(entries.last())
        } else {
            None
        },
    }
}

/// Mathematical value of an optional entry.
pub open spec fn opt_entry(o: Option<(String, (String, String))>) -> Option<Entry> {
    match o {
        Some(e) => Some((e.0@, (e.1.0@, e.1.1@))),
        None => None,
    }
}

/// Mathematical value of an optional cached value.
pub open spec fn opt_value(o: Option<(String, String)>) -> Option<(Seq<char>, Seq<char>)> {
    match o {
        Some(v) => Some((v.0@, v.1@)),
        None => None,
    }
}

/// `lru::LruCache::new`: an empty cache that holds at most `limit` entries.
#[verifier::external_body]
fn cache_new(limit: usize) -> (out: lru::LruCache<String, (String, String)>)
    requires
        limit > 0,
    ensures
        cache_entries(out) == Seq::<Entry>::empty(),
        cache_limit(out) == limit,
{
    lru::LruCache::new(std::num::NonZeroUsize::new(limit).unwrap())
}

/// `lru::LruCache::get`, with a copy of the value found. Where the key is
/// held, its entry becomes the most recently used and its value is returned;
/// else nothing changes and nothing is returned.
#[verifier::external_body]
fn cache_get(cache: &mut lru::LruCache<String, (String, String)>, key: &String) -> (out: Option<
    (String, String),
>)
    ensures
        cache_limit(*final(cache)) == cache_limit(*old(cache)),
        match find_key(cache_entries(*old(cache)), key@) {
            Some(at) => {
                &&& opt_value(out) == Some(cache_entries(*old(cache))[at].1)
                &&& cache_entries(*final(cache)) == touched(cache_entries(*old(cache)), at)
            },
            None => {
                &&& out is None
                &&& cache_entries(*final(cache)) == cache_entries(*old(cache))
            },
        },
{
    cache.get(key).cloned()
}

/// `lru::LruCache::push`. The pair becomes the most recently used entry. It
/// replaces the entry of the same key, whose old value is returned with the
/// key; else, in a full cache, the least recently used entry, which is
/// returned; else nothing, and nothing is returned.
#[verifier::external_body]
fn cache_push(
    cache: &mut lru::LruCache<String, (String, String)>,
    key: String,
    value: (String, String),
) -> (out: Option<(String, (String, String))>)
    ensures
        cache_limit(*final(cache)) == cache_limit(*old(cache)),
        cache_entries(*final(cache)) == pushed(
            cache_entries(*old(cache)),
            cache_limit(*old(cache)),
            key@,
            (value.0@, value.1@),
        ),
        opt_entry(out) == displaced(cache_entries(*old(cache)), cache_limit(*old(cache)), key@),
{
    cache.push(key, value)
}

/// How many categories are cached.
pub const GAME_CACHE_SIZE: usize = 100;

/// No two entries have the same key.
pub open spec fn distinct_keys(entries: Seq<Entry>) -> bool {
    forall|i: int, j: int| 0 <= i < j < entries.len() ==> entries[i].0 != entries[j].0
}

/// Whether some entry of `entries` has the key `key`.
pub open spec fn holds_key(entries: Seq<Entry>, key: Seq<char>) -> bool {
    exists|i: int| 0 <= i < entries.len() && #[trigger] entries[i].0 == key
}

/// [`find_key`] finds the first entry with the key, and none only where there is none.
pub proof fn lemma_find_key(entries: Seq<Entry>, key: Seq<char>)
    ensures
        match find_key(entries, key) {
            Some(at) => {
                &&& 0 <= at < entries.len()
                &&& entries[at].0 == key
                &&& forall|j: int| 0 <= j < at ==> entries[j].0 != key
            },
            None => forall|j: int| 0 <= j < entries.len() ==> entries[j].0 != key,
        },
        find_key(entries, key) is Some <==> holds_key(entries, key),
    decreases entries.len(),
{
    if entries.len() > 0 && entries[0].0 != key {
        let rest = entries.drop_first();
        lemma_find_key(rest, key);
        match find_key(rest, key) {
            Some(at) => {
                assert(rest[at] == entries[at + 1]);
                assert forall|j: int| 0 <= j < at + 1 implies entries[j].0 != key by {
                    if j > 0 {
                        assert(rest[j - 1] == entries[j]);
                    }
                }
            },
            None => {
                assert forall|j: int| 0 <= j < entries.len() implies entries[j].0 != key by {
                    if j > 0 {
                        assert(rest[j - 1] == entries[j]);
                    }
                }
            },
        }
    }
}

/// Using an entry keeps the keys distinct and the number of entries.
pub proof fn lemma_touched_keeps_shape(entries: Seq<Entry>, at: int)
    requires
        distinct_keys(entries),
        0 <= at < entries.len(),
    ensures
        distinct_keys(touched(entries, at)),
        touched(entries, at).len() == entries.len(),
{
    let out = touched(entries, at);
    assert forall|i: int, j: int| 0 <= i < j < out.len() implies out[i].0 != out[j].0 by {
        let from = |k: int| if k == 0 { at } else if k - 1 < at { k - 1 } else { k };
        assert(out[i] == entries[from(i)]);
        assert(out[j] == entries[from(j)]);
        assert(from(i) != from(j));
        if from(i) < from(j) {
            assert(entries[from(i)].0 != entries[from(j)].0);
        } else {
            assert(entries[from(j)].0 != entries[from(i)].0);
        }
    }
}

/// Pushing a pair keeps the keys distinct and the cache within its limit.
pub proof fn lemma_pushed_keeps_shape(
    entries: Seq<Entry>,
    limit: nat,
    key: Seq<char>,
    value: (Seq<char>, Seq<char>),
)
    requires
        distinct_keys(entries),
        entries.len() <= limit,
        limit > 0,
    ensures
        distinct_keys(pushed(entries, limit, key, value)),
        pushed(entries, limit, key, value).len() <= limit,
        pushed(entries, limit, key, value)[0] == (key, value),
{
    lemma_find_key(entries, key);
    let out = pushed(entries, limit, key, value);
    match find_key(entries, key) {
        Some(at) => {
            assert forall|i: int, j: int| 0 <= i < j < out.len() implies out[i].0 != out[j].0 by {
                let from = |k: int| if k - 1 < at { k - 1 } else { k };
                assert(out[j] == entries[from(j)]);
                if i == 0 {
                    if from(j) < at {
                        assert(entries[from(j)].0 != entries[at].0);
                    } else {
                        assert(entries[at].0 != entries[from(j)].0);
                    }
                } else {
                    assert(out[i] == entries[from(i)]);
                    assert(entries[from(i)].0 != entries[from(j)].0);
                }
            }
        },
        None => {
            assert forall|i: int, j: int| 0 <= i < j < out.len() implies out[i].0 != out[j].0 by {
                assert(out[j] == entries[j - 1]);
                if i > 0 {
                    assert(out[i] == entries[i - 1]);
                    assert(entries[i - 1].0 != entries[j - 1].0);
                }
            }
        },
    }
}

/// The entries of the cache of categories after `game` was stored under
/// `key`: as they were for the empty key, and else with the pair pushed.
pub open spec fn stored(entries: Seq<Entry>, key: Seq<char>, game: GameView) -> Seq<Entry> {
    if key.len() == 0 {
        entries
    } else {
        pushed(entries, GAME_CACHE_SIZE as nat, key, (game.id, game.name))
    }
}

/// No entry is ever cached under the empty key: storing keeps it so.
pub proof fn lemma_sentinel_is_never_cached(entries: Seq<Entry>, key: Seq<char>, game: GameView)
    requires
        !holds_key(entries, Seq::empty()),
    ensures
        !holds_key(stored(entries, key, game), Seq::empty()),
{
    if key.len() > 0 {
        lemma_find_key(entries, key);
        let out = stored(entries, key, game);
        assert forall|i: int| 0 <= i < out.len() implies (#[trigger] out[i]).0 != Seq::<
            char,
        >::empty() by {
            if i > 0 {
                match find_key(entries, key) {
                    Some(at) => {
                        assert(out[i] == entries.remove(at)[i - 1]);
                        if i - 1 < at {
                            assert(out[i] == entries[i - 1]);
                        } else {
                            assert(out[i] == entries[i]);
                        }
                    },
                    None => {
                        assert(out[i] == entries[i - 1]);
                    },
                }
            } else {
                assert(out[0].0 == key);
            }
        }
    }
}

/// What a lookup in the cache of categories found.
#[derive(Debug)]
pub enum CacheAnswer {
    /// The id is empty: it stands for "no category", which is not cached.
    Sentinel(Game),
    /// The category is cached.
    Hit(Game),
    /// The category is not cached: it has to be asked for.
    Miss,
}

/// The cache of categories by id.
pub struct GameCache {
    cache: lru::LruCache<String, (String, String)>,
}

impl View for GameCache {
    type V = Seq<Entry>;

    /// The entries, the most recently used first.
    closed spec fn view(&self) -> Seq<Entry> {
        cache_entries(self.cache)
    }
}

impl GameCache {
    /// The number of entries that the cache holds at most.
    pub closed spec fn limit(&self) -> nat {
        cache_limit(self.cache)
    }

    /// The cache holds at most [`GAME_CACHE_SIZE`] entries, no two under the
    /// same key and none under the empty key.
    pub open spec fn wf(&self) -> bool {
        &&& self.limit() == GAME_CACHE_SIZE
        &&& self@.len() <= GAME_CACHE_SIZE
        &&& distinct_keys(self@)
        &&& !holds_key(self@, Seq::empty())
    }

    /// An empty cache.
    pub fn new() -> (out: Self)
        ensures
            out.wf(),
            out@.len() == 0,
    {
        GameCache { cache: cache_new(GAME_CACHE_SIZE) }
    }

    /// Looks the category `id` up. The empty id yields the "no category"
    /// sentinel and leaves the cache alone. A cached category becomes the
    /// most recently used entry.
    pub fn lookup(&mut self, id: &str) -> (out: CacheAnswer)
        requires
            old(self).wf(),
        ensures
            final(self).wf(),
            id@.len() == 0 ==> {
                &&& out matches CacheAnswer::Sentinel(g) && g@ == empty_game()
                &&& final(self)@ == old(self)@
            },
            id@.len() > 0 ==> match find_key(old(self)@, id@) {
                Some(at) => {
                    &&& out matches CacheAnswer::Hit(g) && g@ == (GameView {
                        id: old(self)@[at].1.0,
                        name: old(self)@[at].1.1,
                    })
                    &&& final(self)@ == touched(old(self)@, at)
                },
                None => {
                    &&& out is Miss
                    &&& final(self)@ == old(self)@
                },
            },
    {
        if id.is_empty() {
            return CacheAnswer::Sentinel(Game::empty());
        }
        let key = id.to_owned();
        proof {
            lemma_find_key(self@, id@);
            if find_key(self@, id@) is Some {
                let at = find_key(self@, id@).unwrap();
                lemma_touched_keeps_shape(self@, at);
                let out = touched(self@, at);
                assert forall|i: int| 0 <= i < out.len() implies (#[trigger] out[i]).0 != Seq::<
                    char,
                >::empty() by {
                    if i == 0 {
                        assert(out[i] == self@[at]);
                    } else if i - 1 < at {
                        assert(out[i] == self@[i - 1]);
                    } else {
                        assert(out[i] == self@[i]);
                    }
                }
            }
        }
        match cache_get(&mut self.cache, &key) {
            Some(value) => CacheAnswer::Hit(Game { id: value.0, name: value.1 }),
            None => CacheAnswer::Miss,
        }
    }

    /// Caches `game` under `key` as the most recently used entry, in place of
    /// the entry under that key, or else, where the cache is full, of the
    /// least recently used one. The empty key stands for "no category",
    /// which is never cached: it leaves the cache as it was.
    pub fn store(&mut self, key: String, game: &Game)
        requires
            old(self).wf(),
        ensures
            final(self).wf(),
            final(self)@ == stored(old(self)@, key@, game@),
    {
        if key.as_str().is_empty() {
            return;
        }
        proof {
            lemma_pushed_keeps_shape(
                self@,
                GAME_CACHE_SIZE as nat,
                key@,
                (game@.id, game@.name),
            );
            lemma_sentinel_is_never_cached(self@, key@, game@);
        }
        let _ = cache_push(&mut self.cache, key, (game.id.clone(), game.name.clone()));
    }

    /// How many categories are cached.
    pub fn len(&self) -> (out: usize)
        ensures
            out == self@.len(),
    {
        cache_len(&self.cache)
    }
}

/// `lru::LruCache::len`: the number of entries held.
#[verifier::external_body]
fn cache_len(cache: &lru::LruCache<String, (String, String)>) -> (out: usize)
    ensures
        out == cache_entries(*cache).len(),
{
    cache.len()
}

/// The entries after the pairs `items` were pushed one after the other.
pub open spec fn pushed_all(entries: Seq<Entry>, limit: nat, items: Seq<Entry>) -> Seq<Entry>
    decreases items.len(),
{
    if items.len() == 0 {
        entries
    } else {
        pushed(
            pushed_all(entries, limit, items.drop_last()),
            limit,
            items.last().0,
            items.last().1,
        )
    }
}

/// Pushing a new key into a full cache puts out exactly the least recently
/// used entry: every other entry stays, in its order, behind the new one.
pub proof fn lemma_full_cache_evicts_least_recent(
    entries: Seq<Entry>,
    limit: nat,
    key: Seq<char>,
    value: (Seq<char>, Seq<char>),
)
    requires
        distinct_keys(entries),
        entries.len() == limit,
        limit > 0,
        !holds_key(entries, key),
    ensures
        pushed(entries, limit, key, value) == seq![(key, value)] + entries.drop_last(),
        displaced(entries, limit, key) == Some(entries.last()),
        pushed(entries, limit, key, value).len() == limit,
        forall|i: int|
            0 <= i < limit - 1 ==> #[trigger] pushed(entries, limit, key, value)[i + 1]
                == entries[i],
        !holds_key(pushed(entries, limit, key, value), entries.last().0),
{
    lemma_find_key(entries, key);
    let out = pushed(entries, limit, key, value);
    assert forall|i: int| 0 <= i < out.len() implies out[i].0 != entries.last().0 by {
        if i > 0 {
            assert(out[i] == entries[i - 1]);
        }
    }
}

/// After pairs with distinct keys were pushed into an empty cache, the cache
/// holds the last `limit` of them, the latest first. So one pair more than
/// the limit puts out the first pair, and only that.
pub proof fn lemma_fill_keeps_latest(limit: nat, items: Seq<Entry>)
    requires
        limit > 0,
        distinct_keys(items),
    ensures
        ({
            let out = pushed_all(Seq::empty(), limit, items);
            &&& out.len() == if items.len() <= limit {
                items.len()
            } else {
                limit
            }
            &&& forall|i: int| 0 <= i < out.len() ==> #[trigger] out[i] == items[items.len() - 1 - i]
        }),
    decreases items.len(),
{
    if items.len() > 0 {
        let n = items.len() as int;
        let head = items.drop_last();
        assert forall|i: int, j: int| 0 <= i < j < head.len() implies head[i].0 != head[j].0 by {
            assert(head[i] == items[i]);
            assert(head[j] == items[j]);
        }
        lemma_fill_keeps_latest(limit, head);
        let prev = pushed_all(Seq::empty(), limit, head);
        let key = items.last().0;
        assert forall|i: int| 0 <= i < prev.len() implies prev[i].0 != key by {
            assert(prev[i] == head[head.len() - 1 - i]);
            assert(head[head.len() - 1 - i] == items[n - 2 - i]);
            assert(items[n - 2 - i].0 != items[n - 1].0);
        }
        lemma_find_key(prev, key);
        let out = pushed(prev, limit, key, items.last().1);
        assert forall|i: int| 0 <= i < out.len() implies #[trigger] out[i] == items[n - 1 - i] by {
            if i > 0 {
                assert(out[i] == prev[i - 1]);
                assert(prev[i - 1] == head[head.len() - 1 - (i - 1)]);
            }
        }
    }
}

/// The entries of the cache of categories after the categories `items` were
/// stored one after the other, each under its key.
pub open spec fn stored_all(entries: Seq<Entry>, items: Seq<(Seq<char>, GameView)>) -> Seq<Entry>
    decreases items.len(),
{
    if items.len() == 0 {
        entries
    } else {
        stored(stored_all(entries, items.drop_last()), items.last().0, items.last().1)
    }
}

/// The pairs that `items` are stored as.
pub open spec fn as_entries(items: Seq<(Seq<char>, GameView)>) -> Seq<Entry> {
    items.map_values(|p: (Seq<char>, GameView)| (p.0, (p.1.id, p.1.name)))
}

/// After categories with distinct ids, none of them empty, were stored in an
/// empty cache, the cache holds the last [`GAME_CACHE_SIZE`] of them, the
/// latest first. So the hundred-and-first category puts out the first one,
/// which was used least recently, and no other.
pub proof fn lemma_stores_keep_latest(items: Seq<(Seq<char>, GameView)>)
    requires
        forall|i: int| 0 <= i < items.len() ==> (#[trigger] items[i]).0.len() > 0,
        forall|i: int, j: int| 0 <= i < j < items.len() ==> items[i].0 != items[j].0,
    ensures
        ({
            let out = stored_all(Seq::empty(), items);
            &&& out.len() == if items.len() <= GAME_CACHE_SIZE {
                items.len()
            } else {
                GAME_CACHE_SIZE as nat
            }
            &&& forall|i: int|
                0 <= i < out.len() ==> #[trigger] out[i] == as_entries(items)[items.len() - 1 - i]
        }),
{
    lemma_stored_all_is_pushed_all(items);
    let pairs = as_entries(items);
    assert forall|i: int, j: int| 0 <= i < j < pairs.len() implies pairs[i].0 != pairs[j].0 by {
        assert(pairs[i].0 == items[i].0);
        assert(pairs[j].0 == items[j].0);
    }
    lemma_fill_keeps_latest(GAME_CACHE_SIZE as nat, pairs);
}

proof fn lemma_stored_all_is_pushed_all(items: Seq<(Seq<char>, GameView)>)
    requires
        forall|i: int| 0 <= i < items.len() ==> (#[trigger] items[i]).0.len() > 0,
    ensures
        stored_all(Seq::empty(), items) == pushed_all(
            Seq::empty(),
            GAME_CACHE_SIZE as nat,
            as_entries(items),
        ),
    decreases items.len(),
{
    if items.len() > 0 {
        let head = items.drop_last();
        assert forall|i: int| 0 <= i < head.len() implies (#[trigger] head[i]).0.len() > 0 by {
            assert(head[i] == items[i]);
        }
        lemma_stored_all_is_pushed_all(head);
        assert(as_entries(items).drop_last() =~= as_entries(head));
        assert(as_entries(items).last() == (
            items.last().0,
            (items.last().1.id, items.last().1.name),
        ));
    }
}

} // verus!

