//! The chat endpoint's decision core: given one incoming chat line,
//! the registered destination and the catalog snapshot, decides what
//! to store and what to send. The surrounding web handler performs
//! the I/O these decisions call for.

use vstd::prelude::*;

use crate::catalog::PriceCatalog;
use crate::event::{BroadcastNotice, MalformedBroadcast, NoticeView, RawChatMessage};
use crate::guild::RegisteredGuild;
use crate::notice::{get_wiki_clan_rank_image_url, spec_rank_icon};
use crate::pipeline::{process, spec_process};
use crate::policy::PolicyView;
use crate::strutil::str_eq;

verus! {

/// Icon shown when the clan itself (not a member) is the sender.
pub open spec fn your_clan_icon() -> Seq<char> {
    "https://oldschool.runescape.wiki/images/Your_Clan_icon.png"@
}

/// A clan-chat line relayed verbatim to the chat-relay channel.
#[derive(Debug)]
pub struct ChatRelay {
    pub sender: String,
    pub body: String,
    pub icon_url: String,
}

/// What the endpoint decided for one incoming line: a clan name to
/// store when none is known yet, a verbatim relay when a relay channel
/// is set, and a broadcast notice when a broadcast channel is set and
/// the pipeline produced one.
#[derive(Debug)]
pub struct ChatDecision {
    pub set_clan_name: Option<String>,
    pub relay: Option<ChatRelay>,
    pub broadcast: Option<BroadcastNotice>,
}

/// The view of the policy a registration implies.
pub open spec fn guild_policy(g: RegisteredGuild) -> PolicyView {
    PolicyView {
        allowed_kinds: match g.allowed_broadcast_types {
            Some(v) => Some(v@),
            None => None,
        },
        min_item_value: match g.drop_price_threshold {
            Some(t) => Some(t as int),
            None => None,
        },
    }
}

/// Decides what to do with one incoming chat line. A line already
/// seen (a duplicate submission) produces nothing. Otherwise: record
/// the clan name when none is stored; relay the line when a relay
/// channel is configured, under the clan icon when the clan itself is
/// the sender and under the sender's rank icon otherwise; and when a
/// broadcast channel is configured, run the extraction pipeline under
/// the registration's own policy. A malformed broadcast is surfaced,
/// never silently dropped.
pub fn chat_controller(
    guild: &RegisteredGuild,
    chat: &RawChatMessage,
    already_seen: bool,
    catalog: &PriceCatalog,
) -> (r: Result<ChatDecision, MalformedBroadcast>)
    ensures
        match r {
            Ok(d) => {
                &&& already_seen ==> {
                    &&& d.set_clan_name is None
                    &&& d.relay is None
                    &&& d.broadcast is None
                }
                &&& !already_seen ==> {
                    &&& match d.set_clan_name {
                        Some(name) => guild.clan_name is None && name@ == chat.clan_name@,
                        None => guild.clan_name is Some,
                    }
                    &&& match d.relay {
                        Some(rel) => {
                            &&& guild.clan_chat_channel is Some
                            &&& rel.sender@ == chat.sender@
                            &&& rel.body@ == chat.message@
                            &&& rel.icon_url@ == (if chat.clan_name@ == chat.sender@ {
                                your_clan_icon()
                            } else {
                                spec_rank_icon(chat.rank@)
                            })
                        },
                        None => guild.clan_chat_channel is None,
                    }
                    &&& match d.broadcast {
                        Some(n) => guild.broadcast_channel is Some && spec_process(
                            chat.message@,
                            guild_policy(*guild),
                            catalog@,
                        ) == Ok::<Option<NoticeView>, Seq<char>>(Some(n@)),
                        None => guild.broadcast_channel is None || spec_process(
                            chat.message@,
                            guild_policy(*guild),
                            catalog@,
                        ) == Ok::<Option<NoticeView>, Seq<char>>(None),
                    }
                }
            },
            Err(mb) => {
                &&& !already_seen
                &&& guild.broadcast_channel is Some
                &&& spec_process(chat.message@, guild_policy(*guild), catalog@) == Err::<
                    Option<NoticeView>,
                    Seq<char>,
                >(chat.message@)
                &&& mb.raw@ == chat.message@
            },
        },
{
    if already_seen {
        return Ok(ChatDecision { set_clan_name: None, relay: None, broadcast: None });
    }
    let set_clan_name: Option<String> = match &guild.clan_name {
        None => Some(chat.clan_name.clone()),
        Some(_) => None,
    };
    let relay: Option<ChatRelay> = match guild.clan_chat_channel {
        Some(_) => {
            let icon_url = if str_eq(chat.clan_name.as_str(), chat.sender.as_str()) {
                "https://oldschool.runescape.wiki/images/Your_Clan_icon.png".to_owned()
            } else {
                get_wiki_clan_rank_image_url(chat.rank.as_str())
            };
            Some(ChatRelay { sender: chat.sender.clone(), body: chat.message.clone(), icon_url })
        },
        None => None,
    };
    let broadcast: Option<BroadcastNotice> = match guild.broadcast_channel {
        Some(_) => {
            let policy = guild.policy();
            match process(chat, &policy, catalog) {
                Ok(n) => n,
                Err(mb) => { return Err(mb); },
            }
        },
        None => None,
    };
    Ok(ChatDecision { set_clan_name, relay, broadcast })
}

} // verus!
