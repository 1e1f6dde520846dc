//! Notice formatting: deterministic per-kind rendering of an enriched
//! event into a title, body and icon, and the static clan-rank icon
//! table.

use vstd::prelude::*;

use crate::event::{BroadcastNotice, EnrichedEvent, EventView, ExtractedEvent, NoticeView};
use crate::strutil::{dec_seq, push_str, str_eq, to_underscored, u64_to_string, underscored};

verus! {

pub open spec fn wiki_image_base() -> Seq<char> {
    "https://oldschool.runescape.wiki/images/"@
}

/// The icon attached to a notice: the item's wiki image for a drop,
/// nothing for the other kinds.
pub open spec fn spec_icon(e: EventView) -> Option<Seq<char>> {
    match e {
        EventView::ItemDrop { item_name, .. } => Some(
            wiki_image_base() + underscored(item_name) + "_detail.png"@,
        ),
        _ => None,
    }
}

/// The per-kind notice title.
pub open spec fn spec_title(e: EventView) -> Seq<char> {
    match e {
        EventView::ItemDrop { .. } => "New drop!"@,
        EventView::LevelUp { .. } => "Level up!"@,
        EventView::QuestComplete { .. } => "Quest completed!"@,
        EventView::PetReceived { .. } => "New pet!"@,
        EventView::ClueScrollCompleted { .. } => "Clue scroll completed!"@,
        EventView::CollectionLogSlot { .. } => "Collection log slot!"@,
        EventView::DiaryCompleted { .. } => "Diary completed!"@,
        EventView::CombatAchievement { .. } => "Combat task completed!"@,
        EventView::PersonalBest { .. } => "New personal best!"@,
        EventView::Death { .. } => "Death"@,
        EventView::CofferDonation { .. } => "Coffer donation!"@,
    }
}

/// The per-kind notice body: pure string assembly from the typed
/// fields.
pub open spec fn spec_body(e: EventView) -> Seq<char> {
    match e {
        EventView::ItemDrop { player, item_name, quantity } => player + " has received a drop: "@
            + item_name + " ("@ + dec_seq(quantity as nat) + ")"@,
        EventView::LevelUp { player, level, skill } => player + " has reached level "@ + dec_seq(
            level as nat,
        ) + " in "@ + skill,
        EventView::QuestComplete { player, quest } => player + " has completed a quest: "@ + quest,
        EventView::PetReceived { player } => player + " has a new pet"@,
        EventView::ClueScrollCompleted { player, tier } => player + " has completed a "@ + tier
            + " treasure trail"@,
        EventView::CollectionLogSlot { player, item_name } => player
            + " received a new collection log item: "@ + item_name,
        EventView::DiaryCompleted { player, diary } => player + " has completed the "@ + diary
            + " diary"@,
        EventView::CombatAchievement { player, task } => player + " has completed a combat task: "@
            + task,
        EventView::PersonalBest { player, activity } => player
            + " has achieved a new personal best: "@ + activity,
        EventView::Death { player } => player + " has died"@,
        EventView::CofferDonation { player, amount } => player + " has deposited "@ + dec_seq(
            amount as nat,
        ) + " coins into the coffer"@,
    }
}

/// The notice rendered for an enriched event.
pub open spec fn spec_format(e: EventView, v: Option<int>) -> NoticeView {
    NoticeView {
        title: spec_title(e),
        body: spec_body(e),
        icon_url: spec_icon(e),
        item_value: v,
    }
}

/// Renders one enriched event into a notice. Pure string assembly:
/// every policy decision was already made upstream.
pub fn format(en: &EnrichedEvent) -> (n: BroadcastNotice)
    ensures
        n@ == spec_format(en@.0, en@.1),
{
    let title: String;
    let mut body: String;
    let mut icon_url: Option<String> = None;
    match &en.event {
        ExtractedEvent::ItemDrop { player, item_name, quantity } => {
            title = "New drop!".to_owned();
            body = player.clone();
            push_str(&mut body, " has received a drop: ");
            push_str(&mut body, item_name.as_str());
            push_str(&mut body, " (");
            let q = u64_to_string(*quantity);
            push_str(&mut body, q.as_str());
            push_str(&mut body, ")");
            let mut icon = String::new();
            push_str(&mut icon, "https://oldschool.runescape.wiki/images/");
            let under = to_underscored(item_name.as_str());
            push_str(&mut icon, under.as_str());
            push_str(&mut icon, "_detail.png");
            proof {
                assert(icon@ =~= wiki_image_base() + underscored(item_name@) + "_detail.png"@);
            }
            icon_url = Some(icon);
        },
        ExtractedEvent::LevelUp { player, level, skill } => {
            title = "Level up!".to_owned();
            body = player.clone();
            push_str(&mut body, " has reached level ");
            let l = u64_to_string(*level);
            push_str(&mut body, l.as_str());
            push_str(&mut body, " in ");
            push_str(&mut body, skill.as_str());
        },
        ExtractedEvent::QuestComplete { player, quest } => {
            title = "Quest completed!".to_owned();
            body = player.clone();
            push_str(&mut body, " has completed a quest: ");
            push_str(&mut body, quest.as_str());
        },
        ExtractedEvent::PetReceived { player } => {
            title = "New pet!".to_owned();
            body = player.clone();
            push_str(&mut body, " has a new pet");
        },
        ExtractedEvent::ClueScrollCompleted { player, tier } => {
            title = "Clue scroll completed!".to_owned();
            body = player.clone();
            push_str(&mut body, " has completed a ");
            push_str(&mut body, tier.as_str());
            push_str(&mut body, " treasure trail");
        },
        ExtractedEvent::CollectionLogSlot { player, item_name } => {
            title = "Collection log slot!".to_owned();
            body = player.clone();
            push_str(&mut body, " received a new collection log item: ");
            push_str(&mut body, item_name.as_str());
        },
        ExtractedEvent::DiaryCompleted { player, diary } => {
            title = "Diary completed!".to_owned();
            body = player.clone();
            push_str(&mut body, " has completed the ");
            push_str(&mut body, diary.as_str());
            push_str(&mut body, " diary");
        },
        ExtractedEvent::CombatAchievement { player, task } => {
            title = "Combat task completed!".to_owned();
            body = player.clone();
            push_str(&mut body, " has completed a combat task: ");
            push_str(&mut body, task.as_str());
        },
        ExtractedEvent::PersonalBest { player, activity } => {
            title = "New personal best!".to_owned();
            body = player.clone();
            push_str(&mut body, " has achieved a new personal best: ");
            push_str(&mut body, activity.as_str());
        },
        ExtractedEvent::Death { player } => {
            title = "Death".to_owned();
            body = player.clone();
            push_str(&mut body, " has died");
        },
        ExtractedEvent::CofferDonation { player, amount } => {
            title = "Coffer donation!".to_owned();
            body = player.clone();
            push_str(&mut body, " has deposited ");
            let a = u64_to_string(*amount);
            push_str(&mut body, a.as_str());
            push_str(&mut body, " coins into the coffer");
        },
    }
    BroadcastNotice { title, body, icon_url, item_value: en.item_value }
}

/// The static clan-rank icon table: a wiki image for each known rank
/// label, and a default clan icon for any unknown label.
pub open spec fn spec_rank_icon(rank: Seq<char>) -> Seq<char> {
    if rank == "Owner"@ {
        "https://oldschool.runescape.wiki/images/Owner_clan_rank.png"@
    } else if rank == "Deputy Owner"@ {
        "https://oldschool.runescape.wiki/images/Deputy_owner_clan_rank.png"@
    } else if rank == "Administrator"@ {
        "https://oldschool.runescape.wiki/images/Administrator_clan_rank.png"@
    } else if rank == "General"@ {
        "https://oldschool.runescape.wiki/images/General_clan_rank.png"@
    } else if rank == "Captain"@ {
        "https://oldschool.runescape.wiki/images/Captain_clan_rank.png"@
    } else if rank == "Recruit"@ {
        "https://oldschool.runescape.wiki/images/Recruit_clan_rank.png"@
    } else {
        "https://oldschool.runescape.wiki/images/Clan_icon.png"@
    }
}

/// Resolves a clan-rank label to its display icon reference. Total:
/// an unknown label falls back to the default clan icon.
pub fn get_wiki_clan_rank_image_url(rank: &str) -> (r: String)
    ensures
        r@ == spec_rank_icon(rank@),
{
    if str_eq(rank, "Owner") {
        "https://oldschool.runescape.wiki/images/Owner_clan_rank.png".to_owned()
    } else if str_eq(rank, "Deputy Owner") {
        "https://oldschool.runescape.wiki/images/Deputy_owner_clan_rank.png".to_owned()
    } else if str_eq(rank, "Administrator") {
        "https://oldschool.runescape.wiki/images/Administrator_clan_rank.png".to_owned()
    } else if str_eq(rank, "General") {
        "https://oldschool.runescape.wiki/images/General_clan_rank.png".to_owned()
    } else if str_eq(rank, "Captain") {
        "https://oldschool.runescape.wiki/images/Captain_clan_rank.png".to_owned()
    } else if str_eq(rank, "Recruit") {
        "https://oldschool.runescape.wiki/images/Recruit_clan_rank.png".to_owned()
    } else {
        "https://oldschool.runescape.wiki/images/Clan_icon.png".to_owned()
    }
}

} // verus!
