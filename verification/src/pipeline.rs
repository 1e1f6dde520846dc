//! The broadcast extraction pipeline: one ordered, declarative catalog
//! of message templates drives both classification and extraction;
//! enrichment, policy and formatting turn a raw line into at most one
//! notice.

use vstd::prelude::*;

use crate::catalog::{PriceCatalog, PriceEntryView};
use crate::event::{
    BroadcastNotice, EventKind, EventView, ExtractedEvent, MalformedBroadcast, NoticeView,
    RawChatMessage,
};
use crate::policy::{spec_apply, PolicyContext, PolicyView};
use crate::textscan::{
    check_anchored_suffix, contains_char, contains_pat, contains_pat_exec, digits_value,
    head_before, last_index_of, matches_anchored_suffix, parse_u64, parses_as_u64, rfind_char,
    split_at_first, tail_after,
};

verus! {

// The template catalog: each template is an anchor literal (and for
// some templates a closing suffix) with the variable segments around
// it. Matching is first-match-wins in the order of `spec_classify`;
// the anchors keep the templates mutually distinguishable.
pub open spec fn drop_anchor() -> Seq<char> {
    " has received a drop: "@
}

pub open spec fn pet_anchor() -> Seq<char> {
    " feels something weird sneaking into "@
}

pub open spec fn collection_anchor() -> Seq<char> {
    " received a new collection log item: "@
}

pub open spec fn quest_anchor() -> Seq<char> {
    " has completed a quest: "@
}

pub open spec fn combat_anchor() -> Seq<char> {
    " has completed a combat task: "@
}

pub open spec fn clue_anchor() -> Seq<char> {
    " has completed a "@
}

pub open spec fn clue_suffix() -> Seq<char> {
    " treasure trail"@
}

pub open spec fn diary_anchor() -> Seq<char> {
    " has completed the "@
}

pub open spec fn diary_suffix() -> Seq<char> {
    " diary"@
}

pub open spec fn level_anchor() -> Seq<char> {
    " has reached level "@
}

pub open spec fn level_separator() -> Seq<char> {
    " in "@
}

pub open spec fn pb_anchor() -> Seq<char> {
    " has achieved a new personal best: "@
}

pub open spec fn death_anchor() -> Seq<char> {
    " has died"@
}

pub open spec fn coffer_anchor() -> Seq<char> {
    " has deposited "@
}

pub open spec fn coffer_suffix() -> Seq<char> {
    " coins into the coffer"@
}

/// Which event kind a raw line announces: first-match-wins over the
/// ordered template catalog, `Unrecognized` when no template matches.
pub open spec fn spec_classify(m: Seq<char>) -> EventKind {
    if contains_pat(m, drop_anchor()) {
        EventKind::ItemDrop
    } else if contains_pat(m, pet_anchor()) {
        EventKind::PetReceived
    } else if contains_pat(m, collection_anchor()) {
        EventKind::CollectionLogSlot
    } else if contains_pat(m, quest_anchor()) {
        EventKind::QuestComplete
    } else if contains_pat(m, combat_anchor()) {
        EventKind::CombatAchievement
    } else if matches_anchored_suffix(m, clue_anchor(), clue_suffix()) {
        EventKind::ClueScrollCompleted
    } else if matches_anchored_suffix(m, diary_anchor(), diary_suffix()) {
        EventKind::DiaryCompleted
    } else if contains_pat(m, level_anchor()) {
        EventKind::LevelUp
    } else if contains_pat(m, pb_anchor()) {
        EventKind::PersonalBest
    } else if contains_pat(m, death_anchor()) {
        EventKind::Death
    } else if matches_anchored_suffix(m, coffer_anchor(), coffer_suffix()) {
        EventKind::CofferDonation
    } else {
        EventKind::Unrecognized
    }
}

/// The drop payload (everything after the drop anchor) is well-formed:
/// `item (qty)` with a nonempty item and a strict numeral.
pub open spec fn drop_payload_ok(tail: Seq<char>) -> bool {
    &&& tail.len() >= 1
    &&& tail.last() == ')'
    &&& contains_char(tail, '(')
    &&& {
        let k = last_index_of(tail, '(');
        &&& 2 <= k
        &&& tail[k - 1] == ' '
        &&& k + 1 < tail.len() - 1
        &&& parses_as_u64(tail.subrange(k + 1, tail.len() - 1))
    }
}

/// The item name of a well-formed drop payload.
pub open spec fn drop_item(tail: Seq<char>) -> Seq<char> {
    tail.subrange(0, last_index_of(tail, '(') - 1)
}

/// The quantity of a well-formed drop payload.
pub open spec fn drop_qty(tail: Seq<char>) -> int {
    digits_value(tail.subrange(last_index_of(tail, '(') + 1, tail.len() - 1))
}

/// The typed payload extracted from a classified line, or the raw line
/// itself when a matched template's captured fields fail their grammar
/// (a template-catalog defect). Meaningful only for classified lines.
pub open spec fn spec_extract(m: Seq<char>) -> Result<EventView, Seq<char>> {
    let k = spec_classify(m);
    if k == EventKind::ItemDrop {
        let tail = tail_after(m, drop_anchor());
        if drop_payload_ok(tail) {
            Ok(EventView::ItemDrop {
                player: head_before(m, drop_anchor()),
                item_name: drop_item(tail),
                quantity: drop_qty(tail),
            })
        } else {
            Err(m)
        }
    } else if k == EventKind::PetReceived {
        Ok(EventView::PetReceived { player: head_before(m, pet_anchor()) })
    } else if k == EventKind::CollectionLogSlot {
        Ok(EventView::CollectionLogSlot {
            player: head_before(m, collection_anchor()),
            item_name: tail_after(m, collection_anchor()),
        })
    } else if k == EventKind::QuestComplete {
        Ok(EventView::QuestComplete {
            player: head_before(m, quest_anchor()),
            quest: tail_after(m, quest_anchor()),
        })
    } else if k == EventKind::CombatAchievement {
        Ok(EventView::CombatAchievement {
            player: head_before(m, combat_anchor()),
            task: tail_after(m, combat_anchor()),
        })
    } else if k == EventKind::ClueScrollCompleted {
        let tail = tail_after(m, clue_anchor());
        Ok(EventView::ClueScrollCompleted {
            player: head_before(m, clue_anchor()),
            tier: tail.subrange(0, tail.len() - clue_suffix().len()),
        })
    } else if k == EventKind::DiaryCompleted {
        let tail = tail_after(m, diary_anchor());
        Ok(EventView::DiaryCompleted {
            player: head_before(m, diary_anchor()),
            diary: tail.subrange(0, tail.len() - diary_suffix().len()),
        })
    } else if k == EventKind::LevelUp {
        let tail = tail_after(m, level_anchor());
        if contains_pat(tail, level_separator()) && parses_as_u64(
            head_before(tail, level_separator()),
        ) {
            Ok(EventView::LevelUp {
                player: head_before(m, level_anchor()),
                level: digits_value(head_before(tail, level_separator())),
                skill: tail_after(tail, level_separator()),
            })
        } else {
            Err(m)
        }
    } else if k == EventKind::PersonalBest {
        Ok(EventView::PersonalBest {
            player: head_before(m, pb_anchor()),
            activity: tail_after(m, pb_anchor()),
        })
    } else if k == EventKind::Death {
        Ok(EventView::Death { player: head_before(m, death_anchor()) })
    } else if k == EventKind::CofferDonation {
        let tail = tail_after(m, coffer_anchor());
        let digits = tail.subrange(0, tail.len() - coffer_suffix().len());
        if parses_as_u64(digits) {
            Ok(EventView::CofferDonation {
                player: head_before(m, coffer_anchor()),
                amount: digits_value(digits),
            })
        } else {
            Err(m)
        }
    } else {
        Err(m)
    }
}

/// Classifies one raw line against the ordered template catalog.
/// Pure and total: no match is the normal `Unrecognized` outcome,
/// never an error.
pub fn classify(raw: &RawChatMessage) -> (k: EventKind)
    ensures
        k == spec_classify(raw.message@),
{
    let m = raw.message.as_str();
    if contains_pat_exec(m, " has received a drop: ") {
        EventKind::ItemDrop
    } else if contains_pat_exec(m, " feels something weird sneaking into ") {
        EventKind::PetReceived
    } else if contains_pat_exec(m, " received a new collection log item: ") {
        EventKind::CollectionLogSlot
    } else if contains_pat_exec(m, " has completed a quest: ") {
        EventKind::QuestComplete
    } else if contains_pat_exec(m, " has completed a combat task: ") {
        EventKind::CombatAchievement
    } else if check_anchored_suffix(m, " has completed a ", " treasure trail") {
        EventKind::ClueScrollCompleted
    } else if check_anchored_suffix(m, " has completed the ", " diary") {
        EventKind::DiaryCompleted
    } else if contains_pat_exec(m, " has reached level ") {
        EventKind::LevelUp
    } else if contains_pat_exec(m, " has achieved a new personal best: ") {
        EventKind::PersonalBest
    } else if contains_pat_exec(m, " has died") {
        EventKind::Death
    } else if check_anchored_suffix(m, " has deposited ", " coins into the coffer") {
        EventKind::CofferDonation
    } else {
        EventKind::Unrecognized
    }
}

/// A malformed-template error carrying the offending raw text.
fn malformed(raw: &RawChatMessage) -> (r: MalformedBroadcast)
    ensures
        r.raw@ == raw.message@,
{
    MalformedBroadcast { raw: raw.message.clone() }
}

/// Extracts the typed payload for a classified line. The capture
/// positions come from the same template that classification matched;
/// a matched template whose numeric field fails the strict grammar is
/// surfaced as `MalformedBroadcast`, never silently dropped.
/// Extracts the typed payload for a classified line. The capture
/// positions come from the same template that classification matched;
/// a matched template whose numeric field fails the strict grammar is
/// surfaced as `MalformedBroadcast`, never silently dropped.
pub fn extract(kind: EventKind, raw: &RawChatMessage) -> (r: Result<
    ExtractedEvent,
    MalformedBroadcast,
>)
    requires
        kind == spec_classify(raw.message@),
        kind != EventKind::Unrecognized,
    ensures
        match r {
            Ok(e) => spec_extract(raw.message@) == Ok::<EventView, Seq<char>>(e@),
            Err(mb) => {
                &&& spec_extract(raw.message@) == Err::<EventView, Seq<char>>(raw.message@)
                &&& mb.raw@ == raw.message@
            },
        },
{
    match kind {
        EventKind::ItemDrop => extract_drop(raw),
        EventKind::PetReceived => extract_pet(raw),
        EventKind::CollectionLogSlot => extract_collection(raw),
        EventKind::QuestComplete => extract_quest(raw),
        EventKind::CombatAchievement => extract_combat(raw),
        EventKind::ClueScrollCompleted => extract_clue(raw),
        EventKind::DiaryCompleted => extract_diary(raw),
        EventKind::LevelUp => extract_level(raw),
        EventKind::PersonalBest => extract_pb(raw),
        EventKind::Death => extract_death(raw),
        EventKind::CofferDonation => extract_coffer(raw),
        EventKind::Unrecognized => vstd::pervasive::unreached(),
    }
}

fn extract_drop(raw: &RawChatMessage) -> (r: Result<ExtractedEvent, MalformedBroadcast>)
    requires
        spec_classify(raw.message@) == EventKind::ItemDrop,
    ensures
        match r {
            Ok(e) => spec_extract(raw.message@) == Ok::<EventView, Seq<char>>(e@),
            Err(mb) => {
                &&& spec_extract(raw.message@) == Err::<EventView, Seq<char>>(raw.message@)
                &&& mb.raw@ == raw.message@
            },
        },
{
    match split_at_first(raw.message.as_str(), " has received a drop: ") {
        Some(ht) => extract_drop_payload(raw, ht.0, ht.1),
        None => vstd::pervasive::unreached(),
    }
}

fn extract_pet(raw: &RawChatMessage) -> (r: Result<ExtractedEvent, MalformedBroadcast>)
    requires
        spec_classify(raw.message@) == EventKind::PetReceived,
    ensures
        r matches Ok(e) && spec_extract(raw.message@) == Ok::<EventView, Seq<char>>(e@),
{
    match split_at_first(raw.message.as_str(), " feels something weird sneaking into ") {
        Some(ht) => Ok(ExtractedEvent::PetReceived { player: ht.0 }),
        None => vstd::pervasive::unreached(),
    }
}

fn extract_collection(raw: &RawChatMessage) -> (r: Result<ExtractedEvent, MalformedBroadcast>)
    requires
        spec_classify(raw.message@) == EventKind::CollectionLogSlot,
    ensures
        r matches Ok(e) && spec_extract(raw.message@) == Ok::<EventView, Seq<char>>(e@),
{
    match split_at_first(raw.message.as_str(), " received a new collection log item: ") {
        Some(ht) => Ok(ExtractedEvent::CollectionLogSlot { player: ht.0, item_name: ht.1 }),
        None => vstd::pervasive::unreached(),
    }
}

fn extract_quest(raw: &RawChatMessage) -> (r: Result<ExtractedEvent, MalformedBroadcast>)
    requires
        spec_classify(raw.message@) == EventKind::QuestComplete,
    ensures
        r matches Ok(e) && spec_extract(raw.message@) == Ok::<EventView, Seq<char>>(e@),
{
    match split_at_first(raw.message.as_str(), " has completed a quest: ") {
        Some(ht) => Ok(ExtractedEvent::QuestComplete { player: ht.0, quest: ht.1 }),
        None => vstd::pervasive::unreached(),
    }
}

fn extract_combat(raw: &RawChatMessage) -> (r: Result<ExtractedEvent, MalformedBroadcast>)
    requires
        spec_classify(raw.message@) == EventKind::CombatAchievement,
    ensures
        r matches Ok(e) && spec_extract(raw.message@) == Ok::<EventView, Seq<char>>(e@),
{
    match split_at_first(raw.message.as_str(), " has completed a combat task: ") {
        Some(ht) => Ok(ExtractedEvent::CombatAchievement { player: ht.0, task: ht.1 }),
        None => vstd::pervasive::unreached(),
    }
}

fn extract_clue(raw: &RawChatMessage) -> (r: Result<ExtractedEvent, MalformedBroadcast>)
    requires
        spec_classify(raw.message@) == EventKind::ClueScrollCompleted,
    ensures
        r matches Ok(e) && spec_extract(raw.message@) == Ok::<EventView, Seq<char>>(e@),
{
    match split_at_first(raw.message.as_str(), " has completed a ") {
        Some(ht) => {
            let player = ht.0;
            let tail = ht.1;
            let tl = tail.as_str().unicode_len();
            proof {
                assert(clue_suffix().len() == 15) by {
                    reveal_strlit(" treasure trail");
                }
                assert(matches_anchored_suffix(raw.message@, clue_anchor(), clue_suffix()));
                crate::textscan::lemma_first_match_props(raw.message@, clue_anchor());
                assert(tail@.len() >= 15);
            }
            let tier = tail.as_str().substring_char(0, tl - 15).to_owned();
            Ok(ExtractedEvent::ClueScrollCompleted { player, tier })
        },
        None => vstd::pervasive::unreached(),
    }
}

fn extract_diary(raw: &RawChatMessage) -> (r: Result<ExtractedEvent, MalformedBroadcast>)
    requires
        spec_classify(raw.message@) == EventKind::DiaryCompleted,
    ensures
        r matches Ok(e) && spec_extract(raw.message@) == Ok::<EventView, Seq<char>>(e@),
{
    match split_at_first(raw.message.as_str(), " has completed the ") {
        Some(ht) => {
            let player = ht.0;
            let tail = ht.1;
            let tl = tail.as_str().unicode_len();
            proof {
                assert(diary_suffix().len() == 6) by {
                    reveal_strlit(" diary");
                }
                assert(matches_anchored_suffix(raw.message@, diary_anchor(), diary_suffix()));
                crate::textscan::lemma_first_match_props(raw.message@, diary_anchor());
                assert(tail@.len() >= 6);
            }
            let diary = tail.as_str().substring_char(0, tl - 6).to_owned();
            Ok(ExtractedEvent::DiaryCompleted { player, diary })
        },
        None => vstd::pervasive::unreached(),
    }
}

#[verifier::rlimit(60)]
fn extract_level(raw: &RawChatMessage) -> (r: Result<ExtractedEvent, MalformedBroadcast>)
    requires
        spec_classify(raw.message@) == EventKind::LevelUp,
    ensures
        match r {
            Ok(e) => spec_extract(raw.message@) == Ok::<EventView, Seq<char>>(e@),
            Err(mb) => {
                &&& spec_extract(raw.message@) == Err::<EventView, Seq<char>>(raw.message@)
                &&& mb.raw@ == raw.message@
            },
        },
{
    match split_at_first(raw.message.as_str(), " has reached level ") {
        Some(ht) => {
            let player = ht.0;
            let tail = ht.1;
            match split_at_first(tail.as_str(), " in ") {
                Some(ds) => {
                    match parse_u64(ds.0.as_str()) {
                        Some(level) => Ok(ExtractedEvent::LevelUp {
                            player,
                            level,
                            skill: ds.1,
                        }),
                        None => Err(malformed(raw)),
                    }
                },
                None => Err(malformed(raw)),
            }
        },
        None => vstd::pervasive::unreached(),
    }
}

fn extract_pb(raw: &RawChatMessage) -> (r: Result<ExtractedEvent, MalformedBroadcast>)
    requires
        spec_classify(raw.message@) == EventKind::PersonalBest,
    ensures
        r matches Ok(e) && spec_extract(raw.message@) == Ok::<EventView, Seq<char>>(e@),
{
    match split_at_first(raw.message.as_str(), " has achieved a new personal best: ") {
        Some(ht) => Ok(ExtractedEvent::PersonalBest { player: ht.0, activity: ht.1 }),
        None => vstd::pervasive::unreached(),
    }
}

fn extract_death(raw: &RawChatMessage) -> (r: Result<ExtractedEvent, MalformedBroadcast>)
    requires
        spec_classify(raw.message@) == EventKind::Death,
    ensures
        r matches Ok(e) && spec_extract(raw.message@) == Ok::<EventView, Seq<char>>(e@),
{
    match split_at_first(raw.message.as_str(), " has died") {
        Some(ht) => Ok(ExtractedEvent::Death { player: ht.0 }),
        None => vstd::pervasive::unreached(),
    }
}

fn extract_coffer(raw: &RawChatMessage) -> (r: Result<ExtractedEvent, MalformedBroadcast>)
    requires
        spec_classify(raw.message@) == EventKind::CofferDonation,
    ensures
        match r {
            Ok(e) => spec_extract(raw.message@) == Ok::<EventView, Seq<char>>(e@),
            Err(mb) => {
                &&& spec_extract(raw.message@) == Err::<EventView, Seq<char>>(raw.message@)
                &&& mb.raw@ == raw.message@
            },
        },
{
    match split_at_first(raw.message.as_str(), " has deposited ") {
        Some(ht) => {
            let player = ht.0;
            let tail = ht.1;
            let tl = tail.as_str().unicode_len();
            proof {
                assert(coffer_suffix().len() == 22) by {
                    reveal_strlit(" coins into the coffer");
                }
                assert(matches_anchored_suffix(raw.message@, coffer_anchor(), coffer_suffix()));
                crate::textscan::lemma_first_match_props(raw.message@, coffer_anchor());
                assert(tail@.len() >= 22);
            }
            let digits = tail.as_str().substring_char(0, tl - 22).to_owned();
            match parse_u64(digits.as_str()) {
                Some(amount) => Ok(ExtractedEvent::CofferDonation { player, amount }),
                None => Err(malformed(raw)),
            }
        },
        None => vstd::pervasive::unreached(),
    }
}

/// Parses the `item (qty)` payload of a drop line.
fn extract_drop_payload(raw: &RawChatMessage, player: String, tail: String) -> (r: Result<
    ExtractedEvent,
    MalformedBroadcast,
>)
    requires
        spec_classify(raw.message@) == EventKind::ItemDrop,
        player@ == head_before(raw.message@, drop_anchor()),
        tail@ == tail_after(raw.message@, drop_anchor()),
    ensures
        match r {
            Ok(e) => spec_extract(raw.message@) == Ok::<EventView, Seq<char>>(e@),
            Err(mb) => {
                &&& spec_extract(raw.message@) == Err::<EventView, Seq<char>>(raw.message@)
                &&& mb.raw@ == raw.message@
            },
        },
{
    let t = tail.as_str();
    let n = t.unicode_len();
    if n == 0 {
        return Err(malformed(raw));
    }
    if t.get_char(n - 1) != ')' {
        return Err(malformed(raw));
    }
    let k = match rfind_char(t, '(') {
        Some(k) => k,
        None => { return Err(malformed(raw)); },
    };
    if k < 2 {
        return Err(malformed(raw));
    }
    if t.get_char(k - 1) != ' ' {
        return Err(malformed(raw));
    }
    if !(k + 1 < n - 1) {
        return Err(malformed(raw));
    }
    let digits = t.substring_char(k + 1, n - 1);
    let quantity = match parse_u64(digits) {
        Some(q) => q,
        None => { return Err(malformed(raw)); },
    };
    let item_name = t.substring_char(0, k - 1).to_owned();
    proof {
        assert(drop_payload_ok(tail@));
        assert(item_name@ == drop_item(tail@));
        assert(quantity as int == drop_qty(tail@));
    }
    Ok(ExtractedEvent::ItemDrop { player, item_name, quantity })
}

/// The whole pipeline at spec level: classify, extract, enrich and
/// filter, format. `Ok(None)` is the normal no-notice outcome;
/// `Err` carries the raw text of a line a template matched but whose
/// captured fields failed their grammar.
pub open spec fn spec_process(
    m: Seq<char>,
    policy: PolicyView,
    cat: Seq<PriceEntryView>,
) -> Result<Option<NoticeView>, Seq<char>> {
    if spec_classify(m) == EventKind::Unrecognized {
        Ok(None)
    } else {
        match spec_extract(m) {
            Err(t) => Err(t),
            Ok(e) => match spec_apply(e, cat, policy) {
                None => Ok(None),
                Some(ev) => Ok(Some(crate::notice::spec_format(ev.0, ev.1))),
            },
        }
    }
}

/// The single synchronous entry point: takes one raw line, a borrowed
/// catalog snapshot and a caller-owned policy, and returns at most one
/// formatted notice. Pure: the result is a function of the three
/// views alone.
pub fn process(raw: &RawChatMessage, policy: &PolicyContext, catalog: &PriceCatalog) -> (r: Result<
    Option<BroadcastNotice>,
    MalformedBroadcast,
>)
    ensures
        match r {
            Ok(Some(n)) => spec_process(raw.message@, policy@, catalog@) == Ok::<
                Option<NoticeView>,
                Seq<char>,
            >(Some(n@)),
            Ok(None) => spec_process(raw.message@, policy@, catalog@) == Ok::<
                Option<NoticeView>,
                Seq<char>,
            >(None),
            Err(mb) => {
                &&& spec_process(raw.message@, policy@, catalog@) == Err::<
                    Option<NoticeView>,
                    Seq<char>,
                >(raw.message@)
                &&& mb.raw@ == raw.message@
            },
        },
{
    let kind = classify(raw);
    if kind == EventKind::Unrecognized {
        return Ok(None);
    }
    let event = match extract(kind, raw) {
        Ok(e) => e,
        Err(mb) => { return Err(mb); },
    };
    match crate::policy::apply(event, catalog, policy) {
        None => Ok(None),
        Some(en) => Ok(Some(crate::notice::format(&en))),
    }
}

/// Referential transparency: the result of `process` depends on
/// nothing but the raw text, the policy and the catalog snapshot, so
/// identical inputs always yield an identical result, in any order and
/// concurrently.
pub proof fn lemma_process_pure(
    m1: Seq<char>,
    m2: Seq<char>,
    p1: PolicyView,
    p2: PolicyView,
    c1: Seq<PriceEntryView>,
    c2: Seq<PriceEntryView>,
)
    requires
        m1 == m2,
        p1 == p2,
        c1 == c2,
    ensures
        spec_process(m1, p1, c1) == spec_process(m2, p2, c2),
{
}

/// A line no template matches produces no notice and no error,
/// whatever the policy and the catalog.
pub proof fn lemma_unrecognized_no_notice(m: Seq<char>, policy: PolicyView, cat: Seq<PriceEntryView>)
    requires
        spec_classify(m) == EventKind::Unrecognized,
    ensures
        spec_process(m, policy, cat) == Ok::<Option<NoticeView>, Seq<char>>(None),
{
}

} // verus!

