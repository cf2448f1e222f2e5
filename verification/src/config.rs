//! Settings that the engine reads: the tracked channels, the grace period, the
//! enabled event types and the mention target of each event type.

use vstd::prelude::*;
use crate::text::{has_text, lowercase, same_text, texts, to_lowercase};

verus! {

/// Number of top clips listed in a closing notification unless configured.
pub fn default_top_clips() -> (out: u8)
    ensures
        out == 0,
{
    0
}

/// Minutes a channel may be missing before its session counts as ended, unless configured.
pub fn default_grace_period() -> (out: u8)
    ensures
        out == 2,
{
    2
}

/// The default of every switch that is on unless configured.
pub fn default_true() -> (out: bool)
    ensures
        out,
{
    true
}

/// Settings of the upstream API client.
#[derive(Debug, Default)]
pub struct TwitchConfig {
    pub client_id: String,
    pub client_secret: String,
    /// Logins of the tracked channels.
    pub user_login: Vec<String>,
    /// How many top clips a closing notification lists (at most five are used).
    pub top_clips: u8,
    /// Minutes between the first offline observation and the end of a session.
    pub offline_grace_period: u8,
}

/// The role names that subscribers use, one per event type; empty means none.
#[derive(Debug, Default, Clone)]
pub struct RoleNameConfig {
    pub live: String,
    pub vod: String,
    pub update: String,
}

/// The non-empty names among `live`, `vod`, `update`, in that order.
pub open spec fn role_names(live: Seq<char>, vod: Seq<char>, update: Seq<char>) -> Seq<Seq<char>> {
    (if live.len() > 0 {
        seq![live]
    } else {
        Seq::empty()
    }) + (if vod.len() > 0 {
        seq![vod]
    } else {
        Seq::empty()
    }) + (if update.len() > 0 {
        seq![update]
    } else {
        Seq::empty()
    })
}

impl RoleNameConfig {
    /// The configured role names, leaving out the empty ones.
    pub fn values(&self) -> (out: Vec<&String>)
        ensures
            out@.len() == role_names(self.live@, self.vod@, self.update@).len(),
            forall|i: int|
                0 <= i < out@.len() ==> (#[trigger] out@[i])@ == role_names(
                    self.live@,
                    self.vod@,
                    self.update@,
                )[i],
    {
        let mut out: Vec<&String> = Vec::new();
        if !self.live.as_str().is_empty() {
            out.push(&self.live);
        }
        if !self.vod.as_str().is_empty() {
            out.push(&self.vod);
        }
        if !self.update.as_str().is_empty() {
            out.push(&self.update);
        }
        out
    }
}

/// The kinds of notification.
#[derive(Clone, Copy, Debug, PartialEq, Eq, Structural)]
pub enum EventName {
    Live,
    Vod,
    Update,
}

/// The name under which an event type is configured.
pub open spec fn event_key(event: EventName) -> Seq<char> {
    match event {
        EventName::Live => "live"@,
        EventName::Vod => "vod"@,
        EventName::Update => "update"@,
    }
}

impl EventName {
    /// The name under which this event type is configured.
    pub fn key(self) -> (out: &'static str)
        ensures
            out@ == event_key(self),
    {
        match self {
            EventName::Live => "live",
            EventName::Vod => "vod",
            EventName::Update => "update",
        }
    }
}

/// Where notifications are delivered.
#[derive(Debug, Clone)]
pub struct WebhookParams {
    pub id: u64,
    pub token: String,
}

impl Default for WebhookParams {
    fn default() -> (out: Self)
        ensures
            out.id == 1,
            out.token@ == Seq::<char>::empty(),
    {
        Self { id: 1, token: String::new() }
    }
}

/// Settings of the notification side.
#[derive(Debug, Default)]
pub struct DiscordConfig {
    pub token: String,
    pub guild_id: Option<String>,
    pub stream_notifications: WebhookParams,
    pub logging: Option<WebhookParams>,
    /// Whether notifications carry a hint on how to subscribe.
    pub show_notify_hints: bool,
    pub role_name: RoleNameConfig,
    /// Event types that are delivered; any other is suppressed.
    pub enabled_events: Vec<EventName>,
    pub enable_command: bool,
    pub avatar_url: Option<String>,
}

/// Whether watcher state is persisted.
#[derive(Debug)]
pub struct CacheConfig {
    pub enabled: bool,
}

impl Default for CacheConfig {
    fn default() -> (out: Self)
        ensures
            out.enabled,
    {
        CacheConfig { enabled: true }
    }
}

/// All settings.
#[derive(Debug, Default)]
pub struct Config {
    pub twitch: TwitchConfig,
    pub discord: DiscordConfig,
    pub cache: CacheConfig,
    /// Event name and the id of the role to mention for it; the first entry of a name counts.
    pub role_map: Vec<(String, String)>,
}

/// Mathematical value of a role map.
pub open spec fn role_pairs(roles: Seq<(String, String)>) -> Seq<(Seq<char>, Seq<char>)> {
    roles.map_values(|r: (String, String)| (r.0@, r.1@))
}

/// The role id recorded under `name`: that of the first entry with this name.
pub open spec fn role_of(roles: Seq<(Seq<char>, Seq<char>)>, name: Seq<char>) -> Option<Seq<char>>
    decreases roles.len(),
{
    if roles.len() == 0 {
        None
    } else if roles[0].0 == name {
        Some(roles[0].1)
    } else {
        role_of(roles.drop_first(), name)
    }
}

/// The role id recorded under `name` in `roles`, if there is one.
pub fn find_role(roles: &Vec<(String, String)>, name: &str) -> (out: Option<String>)
    ensures
        match out {
            Some(id) => role_of(role_pairs(roles@), name@) == Some(id@),
            None => role_of(role_pairs(roles@), name@) is None,
        },
{
    let ghost all = role_pairs(roles@);
    let mut i: usize = 0;
    assert(all.subrange(0, roles.len() as int) =~= all);
    while i < roles.len()
        invariant
            i <= roles.len(),
            all == role_pairs(roles@),
            role_of(all, name@) == role_of(all.subrange(i as int, roles.len() as int), name@),
        decreases roles.len() - i,
    {
        let ghost rest = all.subrange(i as int, roles.len() as int);
        assert(rest[0] == (roles@[i as int].0@, roles@[i as int].1@));
        assert(rest.drop_first() =~= all.subrange(i + 1, roles.len() as int));
        if same_text(roles[i].0.as_str(), name) {
            return Some(roles[i].1.clone());
        }
        i = i + 1;
    }
    assert(all.subrange(i as int, roles.len() as int).len() == 0);
    None
}

/// Whether `events` holds `event`.
pub open spec fn has_event(events: Seq<EventName>, event: EventName) -> bool {
    events.contains(event)
}

impl Config {
    /// The id of the role to mention for `event`, if one is recorded.
    pub fn get_role(&self, event: &str) -> (out: Option<String>)
        ensures
            match out {
                Some(id) => role_of(role_pairs(self.role_map@), event@) == Some(id@),
                None => role_of(role_pairs(self.role_map@), event@) is None,
            },
    {
        find_role(&self.role_map, event)
    }

    /// Whether notifications of type `event` are delivered.
    pub fn is_enabled(&self, event: EventName) -> (out: bool)
        ensures
            out == has_event(self.discord.enabled_events@, event),
    {
        let mut i: usize = 0;
        while i < self.discord.enabled_events.len()
            invariant
                i <= self.discord.enabled_events.len(),
                forall|k: int| 0 <= k < i ==> self.discord.enabled_events@[k] != event,
            decreases self.discord.enabled_events.len() - i,
        {
            if self.discord.enabled_events[i] == event {
                return true;
            }
            i = i + 1;
        }
        false
    }
}

/// The role map after `id` was recorded for `event`: in place of the first
/// entry of that name, or else behind all entries.
pub open spec fn role_set(
    roles: Seq<(Seq<char>, Seq<char>)>,
    event: Seq<char>,
    id: Seq<char>,
) -> Seq<(Seq<char>, Seq<char>)>
    decreases roles.len(),
{
    if roles.len() == 0 {
        seq![(event, id)]
    } else if roles[0].0 == event {
        seq![(event, id)] + roles.drop_first()
    } else {
        seq![roles[0]] + role_set(roles.drop_first(), event, id)
    }
}

/// Records `id` under `name` in `roles`: in place of the first entry of that
/// name, or else behind all entries.
pub fn record_role(roles: &mut Vec<(String, String)>, name: &str, id: String)
    ensures
        role_pairs(final(roles)@) == role_set(role_pairs(old(roles)@), name@, id@),
        role_of(role_pairs(final(roles)@), name@) == Some(id@),
{
    let ghost before = role_pairs(roles@);
    let mut i: usize = 0;
    let mut at: Option<usize> = None;
    while i < roles.len() && at.is_none()
        invariant
            i <= roles.len(),
            before == role_pairs(roles@),
            match at {
                Some(k) => k < roles.len() && before[k as int].0 == name@ && i == k + 1,
                None => true,
            },
            forall|k: int| 0 <= k < i && at != Some(k as usize) ==> before[k].0 != name@,
        decreases roles.len() - i,
    {
        assert(before[i as int] == (roles@[i as int].0@, roles@[i as int].1@));
        if same_text(roles[i].0.as_str(), name) {
            at = Some(i);
        }
        i = i + 1;
    }
    proof {
        lemma_recorded_role_is_found(before, name@, id@);
    }
    match at {
        Some(k) => {
            let pair = (name.to_owned(), id);
            roles.set(k, pair);
            proof {
                lemma_role_set_found(before, name@, id@, k as int);
            }
            assert(role_pairs(roles@) =~= before.update(k as int, (name@, id@)));
        },
        None => {
            let pair = (name.to_owned(), id);
            roles.push(pair);
            proof {
                lemma_role_set_absent(before, name@, id@);
            }
            assert(role_pairs(roles@) =~= before.push((name@, id@)));
        },
    }
}

impl Config {
    /// Records `id` as the role to mention for `event`.
    pub fn set_role(&mut self, event: &str, id: String)
        ensures
            role_pairs(final(self).role_map@) == role_set(
                role_pairs(old(self).role_map@),
                event@,
                id@,
            ),
            role_of(role_pairs(final(self).role_map@), event@) == Some(id@),
            final(self).twitch == old(self).twitch,
            final(self).discord == old(self).discord,
            final(self).cache == old(self).cache,
    {
        record_role(&mut self.role_map, event, id);
    }
}

/// What is recorded under a name is found under it, and what is recorded
/// under other names stays as it was.
pub proof fn lemma_recorded_role_is_found(
    roles: Seq<(Seq<char>, Seq<char>)>,
    name: Seq<char>,
    id: Seq<char>,
)
    ensures
        role_of(role_set(roles, name, id), name) == Some(id),
        forall|other: Seq<char>|
            other != name ==> #[trigger] role_of(role_set(roles, name, id), other) == role_of(
                roles,
                other,
            ),
    decreases roles.len(),
{
    let out = role_set(roles, name, id);
    if roles.len() == 0 {
        assert(out.drop_first() =~= roles);
        assert forall|other: Seq<char>| other != name implies #[trigger] role_of(out, other)
            == role_of(roles, other) by {}
    } else if roles[0].0 == name {
        assert(out.drop_first() =~= roles.drop_first());
        assert forall|other: Seq<char>| other != name implies #[trigger] role_of(out, other)
            == role_of(roles, other) by {}
    } else {
        lemma_recorded_role_is_found(roles.drop_first(), name, id);
        let rest = role_set(roles.drop_first(), name, id);
        assert(out.drop_first() =~= rest);
        assert(out[0] == roles[0]);
        assert forall|other: Seq<char>| other != name implies #[trigger] role_of(out, other)
            == role_of(roles, other) by {
            if roles[0].0 != other {
                assert(role_of(rest, other) == role_of(roles.drop_first(), other));
            }
        }
    }
}

proof fn lemma_role_set_found(
    roles: Seq<(Seq<char>, Seq<char>)>,
    event: Seq<char>,
    id: Seq<char>,
    at: int,
)
    requires
        0 <= at < roles.len(),
        roles[at].0 == event,
        forall|k: int| 0 <= k < at ==> roles[k].0 != event,
    ensures
        role_set(roles, event, id) == roles.update(at, (event, id)),
    decreases at,
{
    if at == 0 {
        assert(seq![(event, id)] + roles.drop_first() =~= roles.update(0, (event, id)));
    } else {
        let rest = roles.drop_first();
        assert forall|k: int| 0 <= k < at - 1 implies rest[k].0 != event by {
            assert(rest[k] == roles[k + 1]);
        }
        lemma_role_set_found(rest, event, id, at - 1);
        assert(seq![roles[0]] + rest.update(at - 1, (event, id)) =~= roles.update(
            at,
            (event, id),
        ));
    }
}

proof fn lemma_role_set_absent(roles: Seq<(Seq<char>, Seq<char>)>, event: Seq<char>, id: Seq<char>)
    requires
        forall|k: int| 0 <= k < roles.len() ==> roles[k].0 != event,
    ensures
        role_set(roles, event, id) == roles.push((event, id)),
    decreases roles.len(),
{
    if roles.len() == 0 {
        assert(seq![(event, id)] =~= roles.push((event, id)));
    } else {
        let rest = roles.drop_first();
        assert forall|k: int| 0 <= k < rest.len() implies rest[k].0 != event by {
            assert(rest[k] == roles[k + 1]);
        }
        lemma_role_set_absent(rest, event, id);
        assert(seq![roles[0]] + rest.push((event, id)) =~= roles.push((event, id)));
    }
}

/// A role of the server: its name and its id.
#[derive(Debug, Clone)]
pub struct GuildRole {
    pub name: String,
    pub id: String,
}

/// What to do about the roles to mention.
#[derive(Debug)]
pub struct RolePlan {
    /// The roles that exist: the event and the id to record for it, in the
    /// order of the server's roles.
    pub found: Vec<(EventName, String)>,
    /// The roles to create: the event and the name of its role.
    pub missing: Vec<(EventName, String)>,
}

/// The keys of the three role names, in lower case: of `live`, `update`, `vod`.
pub open spec fn role_keys(names: RoleNameConfig) -> Seq<Seq<char>> {
    seq![lowercase(names.live@), lowercase(names.update@), lowercase(names.vod@)]
}

/// The event at place `at` among `live`, `update`, `vod`.
pub open spec fn event_at(at: int) -> EventName {
    if at == 0 {
        EventName::Live
    } else if at == 1 {
        EventName::Update
    } else {
        EventName::Vod
    }
}

/// The event that a role with the key `key` is for: where several events
/// name the same role, the last of `live`, `update`, `vod`.
pub open spec fn event_for(keys: Seq<Seq<char>>, key: Seq<char>) -> Option<EventName> {
    if keys[2] == key {
        Some(EventName::Vod)
    } else if keys[1] == key {
        Some(EventName::Update)
    } else if keys[0] == key {
        Some(EventName::Live)
    } else {
        None
    }
}

/// The keys of `held`, in order.
pub open spec fn held_keys(held: Seq<(Seq<char>, Seq<char>)>) -> Seq<Seq<char>> {
    held.map_values(|r: (Seq<char>, Seq<char>)| r.0)
}

/// What is recorded for the first `n` of `held`, the roles of the server
/// by key and id: for each whose key is that of an event's role, the event
/// and the id.
pub open spec fn found_roles(keys: Seq<Seq<char>>, held: Seq<(Seq<char>, Seq<char>)>, n: int) -> Seq<
    (EventName, Seq<char>),
>
    decreases n,
{
    if n <= 0 {
        Seq::empty()
    } else {
        match event_for(keys, held[n - 1].0) {
            Some(event) => found_roles(keys, held, n - 1).push((event, held[n - 1].1)),
            None => found_roles(keys, held, n - 1),
        }
    }
}

/// Whether the role of the event at place `at` is to be created: it is
/// named, the server has no role of that key, and no later event names it too.
pub open spec fn is_missing(keys: Seq<Seq<char>>, held: Seq<Seq<char>>, at: int) -> bool {
    keys[at].len() > 0 && event_for(keys, keys[at]) == Some(event_at(at)) && !held.contains(
        keys[at],
    )
}

/// The roles to create among those of the first `n` events.
pub open spec fn missing_roles(keys: Seq<Seq<char>>, held: Seq<Seq<char>>, n: int) -> Seq<
    (EventName, Seq<char>),
>
    decreases n,
{
    if n <= 0 {
        Seq::empty()
    } else if is_missing(keys, held, n - 1) {
        missing_roles(keys, held, n - 1).push((event_at(n - 1), keys[n - 1]))
    } else {
        missing_roles(keys, held, n - 1)
    }
}

/// Mathematical value of a list of events with texts.
pub open spec fn event_pairs(items: Seq<(EventName, String)>) -> Seq<(EventName, Seq<char>)> {
    items.map_values(|p: (EventName, String)| (p.0, p.1@))
}

/// The roles of the server by key and id.
pub open spec fn guild_pairs(roles: Seq<GuildRole>) -> Seq<(Seq<char>, Seq<char>)> {
    roles.map_values(|r: GuildRole| (lowercase(r.name@), r.id@))
}

/// Matches the keys of the three role names against the roles of the
/// server, given by key and id.
pub fn match_roles(live: &str, update: &str, vod: &str, held: &Vec<(String, String)>) -> (out:
    RolePlan)
    ensures
        event_pairs(out.found@) == found_roles(
            seq![live@, update@, vod@],
            role_pairs(held@),
            held.len() as int,
        ),
        event_pairs(out.missing@) == missing_roles(
            seq![live@, update@, vod@],
            held_keys(role_pairs(held@)),
            3,
        ),
{
    let ghost keys = seq![live@, update@, vod@];
    let ghost all = role_pairs(held@);
    let mut found: Vec<(EventName, String)> = Vec::new();
    let mut names: Vec<String> = Vec::new();
    let mut i: usize = 0;
    assert(event_pairs(found@) =~= found_roles(keys, all, 0));
    assert(texts(names@) =~= held_keys(all).subrange(0, 0));
    while i < held.len()
        invariant
            i <= held.len(),
            keys == seq![live@, update@, vod@],
            all == role_pairs(held@),
            event_pairs(found@) == found_roles(keys, all, i as int),
            texts(names@) == held_keys(all).subrange(0, i as int),
        decreases held.len() - i,
    {
        let ghost before = event_pairs(found@);
        let ghost seen = texts(names@);
        let key: &String = &held[i].0;
        assert(all[i as int] == (held@[i as int].0@, held@[i as int].1@));
        let event = if same_text(vod, key.as_str()) {
            Some(EventName::Vod)
        } else if same_text(update, key.as_str()) {
            Some(EventName::Update)
        } else if same_text(live, key.as_str()) {
            Some(EventName::Live)
        } else {
            None
        };
        match event {
            Some(e) => {
                let pair = (e, held[i].1.clone());
                found.push(pair);
                assert(event_pairs(found@) =~= before.push((e, held@[i as int].1@)));
            },
            None => {},
        }
        names.push(key.clone());
        assert(texts(names@) =~= seen.push(all[i as int].0));
        assert(texts(names@) =~= held_keys(all).subrange(0, i + 1));
        i = i + 1;
    }
    assert(held_keys(all).subrange(0, held.len() as int) =~= held_keys(all));
    assert(texts(names@).subrange(0, names.len() as int) =~= held_keys(all));
    let mut missing: Vec<(EventName, String)> = Vec::new();
    assert(event_pairs(missing@) =~= missing_roles(keys, held_keys(all), 0));
    if !live.is_empty() && !same_text(update, live) && !same_text(vod, live) && !has_text(
        &names,
        names.len(),
        live,
    ) {
        let ghost before = event_pairs(missing@);
        missing.push((EventName::Live, live.to_owned()));
        assert(event_pairs(missing@) =~= before.push((EventName::Live, live@)));
    }
    assert(event_pairs(missing@) =~= missing_roles(keys, held_keys(all), 1));
    if !update.is_empty() && !same_text(vod, update) && !has_text(&names, names.len(), update) {
        let ghost before = event_pairs(missing@);
        missing.push((EventName::Update, update.to_owned()));
        assert(event_pairs(missing@) =~= before.push((EventName::Update, update@)));
    }
    assert(event_pairs(missing@) =~= missing_roles(keys, held_keys(all), 2));
    if !vod.is_empty() && !has_text(&names, names.len(), vod) {
        let ghost before = event_pairs(missing@);
        missing.push((EventName::Vod, vod.to_owned()));
        assert(event_pairs(missing@) =~= before.push((EventName::Vod, vod@)));
    }
    assert(event_pairs(missing@) =~= missing_roles(keys, held_keys(all), 3));
    RolePlan { found, missing }
}

/// Matches the role names of the settings against the roles of the server,
/// whatever the case of the letters: names are told apart by their keys,
/// their forms in lower case; see [`match_roles`].
pub fn plan_roles(names: &RoleNameConfig, roles: &Vec<GuildRole>) -> (out: RolePlan)
    ensures
        event_pairs(out.found@) == found_roles(
            role_keys(*names),
            guild_pairs(roles@),
            roles.len() as int,
        ),
        event_pairs(out.missing@) == missing_roles(
            role_keys(*names),
            held_keys(guild_pairs(roles@)),
            3,
        ),
{
    let live = to_lowercase(names.live.as_str());
    let update = to_lowercase(names.update.as_str());
    let vod = to_lowercase(names.vod.as_str());
    let mut held: Vec<(String, String)> = Vec::new();
    let mut i: usize = 0;
    assert(role_pairs(held@) =~= guild_pairs(roles@).subrange(0, 0));
    while i < roles.len()
        invariant
            i <= roles.len(),
            role_pairs(held@) == guild_pairs(roles@).subrange(0, i as int),
        decreases roles.len() - i,
    {
        let ghost before = role_pairs(held@);
        let pair = (to_lowercase(roles[i].name.as_str()), roles[i].id.clone());
        held.push(pair);
        assert(role_pairs(held@) =~= before.push(guild_pairs(roles@)[i as int]));
        assert(role_pairs(held@) =~= guild_pairs(roles@).subrange(0, i + 1));
        i = i + 1;
    }
    assert(guild_pairs(roles@).subrange(0, roles.len() as int) =~= guild_pairs(roles@));
    assert(role_keys(*names) =~= seq![live@, update@, vod@]);
    match_roles(live.as_str(), update.as_str(), vod.as_str(), &held)
}

} // verus!
