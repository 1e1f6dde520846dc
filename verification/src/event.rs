//! Data model of the pipeline: raw chat lines, event kinds, extracted
//! payloads, enriched events and formatted notices, each with a
//! mathematical view for use in contracts.

use vstd::prelude::*;

verus! {

/// One raw clan-chat line as handed over by the game client.
#[derive(Debug)]
pub struct RawChatMessage {
    pub author: String,
    pub message: String,
    pub clan_name: String,
    pub sender: String,
    pub rank: String,
}

/// View of a raw chat line: each field as a character sequence.
pub struct RawChatMessageView {
    pub author: Seq<char>,
    pub message: Seq<char>,
    pub clan_name: Seq<char>,
    pub sender: Seq<char>,
    pub rank: Seq<char>,
}

impl View for RawChatMessage {
    type V = RawChatMessageView;

    open spec fn view(&self) -> RawChatMessageView {
        RawChatMessageView {
            author: self.author@,
            message: self.message@,
            clan_name: self.clan_name@,
            sender: self.sender@,
            rank: self.rank@,
        }
    }
}

/// The closed set of event kinds a raw line can announce.
/// `Unrecognized` is the normal outcome for a line that matches no
/// template, not an error.
#[derive(Clone, Copy, PartialEq, Eq, Structural, Debug)]
pub enum EventKind {
    ItemDrop,
    LevelUp,
    QuestComplete,
    PetReceived,
    ClueScrollCompleted,
    CollectionLogSlot,
    DiaryCompleted,
    CombatAchievement,
    PersonalBest,
    Death,
    CofferDonation,
    Unrecognized,
}

/// The typed payload of a classified line, keyed by event kind.
#[derive(Debug)]
pub enum ExtractedEvent {
    ItemDrop { player: String, item_name: String, quantity: u64 },
    LevelUp { player: String, level: u64, skill: String },
    QuestComplete { player: String, quest: String },
    PetReceived { player: String },
    ClueScrollCompleted { player: String, tier: String },
    CollectionLogSlot { player: String, item_name: String },
    DiaryCompleted { player: String, diary: String },
    CombatAchievement { player: String, task: String },
    PersonalBest { player: String, activity: String },
    Death { player: String },
    CofferDonation { player: String, amount: u64 },
}

/// Spec-level payload: the same variants over character sequences and
/// unbounded integers.
pub enum EventView {
    ItemDrop { player: Seq<char>, item_name: Seq<char>, quantity: int },
    LevelUp { player: Seq<char>, level: int, skill: Seq<char> },
    QuestComplete { player: Seq<char>, quest: Seq<char> },
    PetReceived { player: Seq<char> },
    ClueScrollCompleted { player: Seq<char>, tier: Seq<char> },
    CollectionLogSlot { player: Seq<char>, item_name: Seq<char> },
    DiaryCompleted { player: Seq<char>, diary: Seq<char> },
    CombatAchievement { player: Seq<char>, task: Seq<char> },
    PersonalBest { player: Seq<char>, activity: Seq<char> },
    Death { player: Seq<char> },
    CofferDonation { player: Seq<char>, amount: int },
}

impl View for ExtractedEvent {
    type V = EventView;

    open spec fn view(&self) -> EventView {
        match self {
            ExtractedEvent::ItemDrop { player, item_name, quantity } => EventView::ItemDrop {
                player: player@,
                item_name: item_name@,
                quantity: *quantity as int,
            },
            ExtractedEvent::LevelUp { player, level, skill } => EventView::LevelUp {
                player: player@,
                level: *level as int,
                skill: skill@,
            },
            ExtractedEvent::QuestComplete { player, quest } => EventView::QuestComplete {
                player: player@,
                quest: quest@,
            },
            ExtractedEvent::PetReceived { player } => EventView::PetReceived { player: player@ },
            ExtractedEvent::ClueScrollCompleted { player, tier } => EventView::ClueScrollCompleted {
                player: player@,
                tier: tier@,
            },
            ExtractedEvent::CollectionLogSlot { player, item_name } => EventView::CollectionLogSlot {
                player: player@,
                item_name: item_name@,
            },
            ExtractedEvent::DiaryCompleted { player, diary } => EventView::DiaryCompleted {
                player: player@,
                diary: diary@,
            },
            ExtractedEvent::CombatAchievement { player, task } => EventView::CombatAchievement {
                player: player@,
                task: task@,
            },
            ExtractedEvent::PersonalBest { player, activity } => EventView::PersonalBest {
                player: player@,
                activity: activity@,
            },
            ExtractedEvent::Death { player } => EventView::Death { player: player@ },
            ExtractedEvent::CofferDonation { player, amount } => EventView::CofferDonation {
                player: player@,
                amount: *amount as int,
            },
        }
    }
}

impl EventView {
    /// The kind tag of a spec-level payload.
    pub open spec fn kind(self) -> EventKind {
        match self {
            EventView::ItemDrop { .. } => EventKind::ItemDrop,
            EventView::LevelUp { .. } => EventKind::LevelUp,
            EventView::QuestComplete { .. } => EventKind::QuestComplete,
            EventView::PetReceived { .. } => EventKind::PetReceived,
            EventView::ClueScrollCompleted { .. } => EventKind::ClueScrollCompleted,
            EventView::CollectionLogSlot { .. } => EventKind::CollectionLogSlot,
            EventView::DiaryCompleted { .. } => EventKind::DiaryCompleted,
            EventView::CombatAchievement { .. } => EventKind::CombatAchievement,
            EventView::PersonalBest { .. } => EventKind::PersonalBest,
            EventView::Death { .. } => EventKind::Death,
            EventView::CofferDonation { .. } => EventKind::CofferDonation,
        }
    }
}

impl ExtractedEvent {
    /// The kind tag of a payload.
    pub fn kind(&self) -> (k: EventKind)
        ensures
            k == self@.kind(),
    {
        match self {
            ExtractedEvent::ItemDrop { .. } => EventKind::ItemDrop,
            ExtractedEvent::LevelUp { .. } => EventKind::LevelUp,
            ExtractedEvent::QuestComplete { .. } => EventKind::QuestComplete,
            ExtractedEvent::PetReceived { .. } => EventKind::PetReceived,
            ExtractedEvent::ClueScrollCompleted { .. } => EventKind::ClueScrollCompleted,
            ExtractedEvent::CollectionLogSlot { .. } => EventKind::CollectionLogSlot,
            ExtractedEvent::DiaryCompleted { .. } => EventKind::DiaryCompleted,
            ExtractedEvent::CombatAchievement { .. } => EventKind::CombatAchievement,
            ExtractedEvent::PersonalBest { .. } => EventKind::PersonalBest,
            ExtractedEvent::Death { .. } => EventKind::Death,
            ExtractedEvent::CofferDonation { .. } => EventKind::CofferDonation,
        }
    }
}

/// A template matched the line, but a captured field failed its
/// grammar: a template-catalog defect, surfaced with the raw text.
#[derive(Debug)]
pub struct MalformedBroadcast {
    pub raw: String,
}

/// An extracted event together with its market value, when one is
/// known.
#[derive(Debug)]
pub struct EnrichedEvent {
    pub event: ExtractedEvent,
    pub item_value: Option<i128>,
}

/// The formatted notice, ready for a delivery collaborator.
#[derive(Debug)]
pub struct BroadcastNotice {
    pub title: String,
    pub body: String,
    pub icon_url: Option<String>,
    pub item_value: Option<i128>,
}

/// View of a notice: title, body, optional icon reference and optional
/// market value.
pub struct NoticeView {
    pub title: Seq<char>,
    pub body: Seq<char>,
    pub icon_url: Option<Seq<char>>,
    pub item_value: Option<int>,
}

impl View for BroadcastNotice {
    type V = NoticeView;

    open spec fn view(&self) -> NoticeView {
        NoticeView {
            title: self.title@,
            body: self.body@,
            icon_url: match self.icon_url {
                Some(u) => Some(u@),
                None => None,
            },
            item_value: match self.item_value {
                Some(v) => Some(v as int),
                None => None,
            },
        }
    }
}

} // verus!
