//! The address of a webhook, as it is written in the settings.

use vstd::prelude::*;
use crate::config::WebhookParams;
use crate::pattern::{capture_groups, group_texts, regex_captured};
use crate::text::{opt_text, parse_decimal, read_decimal};

verus! {

/// The pattern of the address of a webhook: `http://` or `https://`, the
/// host `discord.com`, alone or below one name, `/api/webhooks/`, the id in
/// digits, `/`, and the token of word characters and hyphens. The second
/// group is the id, the third the token.
pub open spec fn webhook_pattern() -> Seq<char> {
    "^https?://(?:\\w+\\.)?discord.com/api/webhooks/(\\d+)/([\\w-]+)$"@
}

/// The id and the token of a webhook, given the groups that its address was
/// matched into: the id is the number that the second group spells, above
/// zero and within 64 bits, the token is the third group.
pub open spec fn webhook_from_groups(groups: Seq<Option<Seq<char>>>) -> Option<(u64, Seq<char>)> {
    if groups.len() > 2 {
        match (groups[1], groups[2]) {
            (Some(digits), Some(token)) => match parse_decimal(digits, u64::MAX as nat) {
                Some(id) => if id > 0 {
                    Some((id as u64, token))
                } else {
                    None
                },
                None => None,
            },
            _ => None,
        }
    } else {
        None
    }
}

/// The id and the token of the webhook with the address `url`.
pub open spec fn webhook_of(url: Seq<char>) -> Option<(u64, Seq<char>)> {
    match regex_captured(webhook_pattern(), url) {
        Some(groups) => webhook_from_groups(groups),
        None => None,
    }
}

impl WebhookParams {
    /// The webhook whose address was matched into `groups`; `None` where a
    /// group is missing or the id is no number above zero within 64 bits.
    pub fn from_groups(groups: &Vec<Option<String>>) -> (out: Option<WebhookParams>)
        ensures
            match out {
                Some(hook) => webhook_from_groups(group_texts(groups@)) == Some(
                    (hook.id, hook.token@),
                ),
                None => webhook_from_groups(group_texts(groups@)) is None,
            },
    {
        if groups.len() <= 2 {
            return None;
        }
        assert(group_texts(groups@)[1] == opt_text(groups@[1]));
        assert(group_texts(groups@)[2] == opt_text(groups@[2]));
        match (&groups[1], &groups[2]) {
            (Some(digits), Some(token)) => match read_decimal(digits.as_str(), u64::MAX) {
                Some(id) => if id > 0 {
                    Some(WebhookParams { id, token: token.clone() })
                } else {
                    None
                },
                None => None,
            },
            _ => None,
        }
    }

    /// Reads the address of a webhook; `None` where `url` is none.
    pub fn parse(url: &str) -> (out: Option<WebhookParams>)
        ensures
            match out {
                Some(hook) => webhook_of(url@) == Some((hook.id, hook.token@)),
                None => webhook_of(url@) is None,
            },
    {
        match capture_groups(
            "^https?://(?:\\w+\\.)?discord.com/api/webhooks/(\\d+)/([\\w-]+)$",
            url,
        ) {
            Some(groups) => Self::from_groups(&groups),
            None => None,
        }
    }
}

} // verus!
