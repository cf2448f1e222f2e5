//! The decisions behind the `notify` command, by which a member subscribes
//! to the role of an event or gives it up.

use vstd::prelude::*;
use crate::config::{role_names, GuildRole, RoleNameConfig};
use crate::keys::{entry_of, key_map, map_get, map_insert, map_is_empty, map_new, no_entries};
use crate::keys::KeyMap;
use crate::text::{chars_of, has_text, opt_text, same_text, texts};

verus! {

/// The name of the command.
pub const COMMAND_NAME: &'static str = "notify";

/// The name of the command's option.
pub const OPTION_NAME: &'static str = "role";

/// The code of `c`, that of the small letter where `c` is a capital ASCII letter.
pub open spec fn fold_case(c: char) -> u32 {
    if 'A' <= c && c <= 'Z' {
        (c as u32 + 32) as u32
    } else {
        c as u32
    }
}

/// Whether `a` and `b` are the same but for the case of their ASCII letters.
pub open spec fn same_ignoring_case(a: Seq<char>, b: Seq<char>) -> bool {
    a.len() == b.len() && forall|i: int| 0 <= i < a.len() ==> fold_case(a[i]) == fold_case(b[i])
}

/// The code of `c`, that of the small letter where `c` is a capital ASCII letter.
pub fn folded(c: char) -> (out: u32)
    ensures
        out == fold_case(c),
{
    if 'A' <= c && c <= 'Z' {
        c as u32 + 32
    } else {
        c as u32
    }
}

/// Whether `a` and `b` are the same but for the case of their ASCII letters.
pub fn eq_ignore_ascii_case(a: &str, b: &str) -> (out: bool)
    ensures
        out == same_ignoring_case(a@, b@),
{
    let x = chars_of(a);
    let y = chars_of(b);
    if x.len() != y.len() {
        return false;
    }
    let mut i: usize = 0;
    while i < x.len()
        invariant
            i <= x.len(),
            x.len() == y.len(),
            x@ == a@,
            y@ == b@,
            forall|k: int| 0 <= k < i ==> fold_case(x@[k]) == fold_case(y@[k]),
        decreases x.len() - i,
    {
        if folded(x[i]) != folded(y[i]) {
            return false;
        }
        i = i + 1;
    }
    true
}

/// Whether one of the first `n` of `names` is `name` but for the case of ASCII letters.
pub open spec fn names_role(names: Seq<Seq<char>>, name: Seq<char>, n: int) -> bool
    decreases n,
{
    if n <= 0 {
        false
    } else {
        names_role(names, name, n - 1) || same_ignoring_case(name, names[n - 1])
    }
}

/// The roles known after the first `n` of `roles` were looked at: each whose
/// name is that of an event's role, but for the case of ASCII letters, is
/// recorded with its id under its own name.
pub open spec fn roles_after(
    cache: Map<Seq<char>, Seq<char>>,
    names: Seq<Seq<char>>,
    roles: Seq<GuildRole>,
    n: int,
) -> Map<Seq<char>, Seq<char>>
    decreases n,
{
    if n <= 0 {
        cache
    } else {
        let before = roles_after(cache, names, roles, n - 1);
        if names_role(names, roles[n - 1].name@, names.len() as int) {
            before.insert(roles[n - 1].name@, roles[n - 1].id@)
        } else {
            before
        }
    }
}

/// What the command does to the member who gave it.
#[derive(Debug, PartialEq, Eq)]
pub enum RoleChange {
    /// The member gets the role with this id.
    Add(String),
    /// The member loses the role with this id.
    Remove(String),
}

/// The roles that members can subscribe to: their names in the server and their ids.
#[derive(Debug)]
pub struct Gateway {
    pub role_cache: KeyMap,
}

impl Gateway {
    /// A gateway that knows no role yet.
    pub fn new() -> (out: Self)
        ensures
            key_map(out.role_cache) == no_entries(),
    {
        Gateway { role_cache: map_new() }
    }

    /// The id of the role that is known under `name`, if one is.
    pub fn role_id(&self, name: &str) -> (out: Option<String>)
        ensures
            opt_text(out) == entry_of(key_map(self.role_cache), name@),
    {
        map_get(&self.role_cache, name)
    }

    /// Takes note of the roles of a server that are named in the settings.
    /// Tells whether any role is known.
    pub fn init_roles(&mut self, config: &RoleNameConfig, roles: &Vec<GuildRole>) -> (out: bool)
        ensures
            key_map(final(self).role_cache) == roles_after(
                key_map(old(self).role_cache),
                role_names(config.live@, config.vod@, config.update@),
                roles@,
                roles.len() as int,
            ),
            out == (key_map(final(self).role_cache) != no_entries()),
    {
        let ghost began = key_map(self.role_cache);
        let ghost names = role_names(config.live@, config.vod@, config.update@);
        let wanted = config.values();
        assert(wanted@.len() == names.len());
        let mut i: usize = 0;
        while i < roles.len()
            invariant
                i <= roles.len(),
                names == role_names(config.live@, config.vod@, config.update@),
                wanted@.len() == names.len(),
                forall|k: int| 0 <= k < wanted@.len() ==> (#[trigger] wanted@[k])@ == names[k],
                key_map(self.role_cache) == roles_after(began, names, roles@, i as int),
            decreases roles.len() - i,
        {
            let role = &roles[i];
            let mut named = false;
            let mut k: usize = 0;
            while k < wanted.len()
                invariant
                    k <= wanted.len(),
                    wanted@.len() == names.len(),
                    forall|m: int| 0 <= m < wanted@.len() ==> (#[trigger] wanted@[m])@ == names[m],
                    named == names_role(names, role.name@, k as int),
                decreases wanted.len() - k,
            {
                assert(wanted@[k as int]@ == names[k as int]);
                if eq_ignore_ascii_case(role.name.as_str(), wanted[k].as_str()) {
                    named = true;
                }
                k = k + 1;
            }
            if named {
                let _ = map_insert(&mut self.role_cache, role.name.clone(), role.id.clone());
            }
            i = i + 1;
        }
        !map_is_empty(&self.role_cache)
    }

    /// The choices that the command offers: the role names of the settings,
    /// each as the label and as the value.
    pub fn choices(config: &RoleNameConfig) -> (out: Vec<(String, String)>)
        ensures
            out@.len() == role_names(config.live@, config.vod@, config.update@).len(),
            forall|i: int|
                0 <= i < out@.len() ==> (#[trigger] out@[i]).0@ == role_names(
                    config.live@,
                    config.vod@,
                    config.update@,
                )[i] && out@[i].1@ == out@[i].0@,
    {
        let ghost names = role_names(config.live@, config.vod@, config.update@);
        let wanted = config.values();
        let mut out: Vec<(String, String)> = Vec::new();
        let mut i: usize = 0;
        while i < wanted.len()
            invariant
                i <= wanted.len(),
                wanted@.len() == names.len(),
                forall|m: int| 0 <= m < wanted@.len() ==> (#[trigger] wanted@[m])@ == names[m],
                out@.len() == i,
                forall|m: int|
                    0 <= m < i ==> (#[trigger] out@[m]).0@ == names[m] && out@[m].1@ == out@[m].0@,
            decreases wanted.len() - i,
        {
            let name: &String = wanted[i];
            assert(wanted@[i as int]@ == names[i as int]);
            out.push((name.clone(), name.clone()));
            i = i + 1;
        }
        out
    }

    /// Whether a command of the name `name` is this one.
    pub fn accepts(name: &str) -> (out: bool)
        ensures
            out == (name@ == COMMAND_NAME@),
    {
        same_text(name, COMMAND_NAME)
    }

    /// What the command does for a member with the roles `member_roles` who
    /// chose the role named `role_name`: nothing where the option is
    /// missing, the role is not known or the command was not given in a
    /// server; else the member loses the role if they have it, and gets it
    /// if they have not.
    pub fn on_interaction(
        &self,
        role_name: Option<&str>,
        in_guild: bool,
        member_roles: &Vec<String>,
    ) -> (out: Option<RoleChange>)
        ensures
            match role_name {
                Some(name) => match entry_of(key_map(self.role_cache), name@) {
                    Some(id) => if in_guild {
                        if texts(member_roles@).contains(id) {
                            out matches Some(RoleChange::Remove(r)) && r@ == id
                        } else {
                            out matches Some(RoleChange::Add(r)) && r@ == id
                        }
                    } else {
                        out is None
                    },
                    None => out is None,
                },
                None => out is None,
            },
    {
        let name = match role_name {
            Some(name) => name,
            None => return None,
        };
        let role = match map_get(&self.role_cache, name) {
            Some(role) => role,
            None => return None,
        };
        if !in_guild {
            return None;
        }
        assert(texts(member_roles@).subrange(0, member_roles.len() as int) =~= texts(
            member_roles@,
        ));
        if has_text(member_roles, member_roles.len(), role.as_str()) {
            Some(RoleChange::Remove(role))
        } else {
            Some(RoleChange::Add(role))
        }
    }
}

} // verus!
