use trackscape::catalog::{PriceCatalog, PriceEntry};
use trackscape::event::{BroadcastNotice, EventKind, ExtractedEvent};
use trackscape::pipeline::{classify, extract, process};
use trackscape::policy::PolicyContext;

fn msg(message: &str) -> trackscape::event::RawChatMessage {
    trackscape::event::RawChatMessage {
        author: "Insomniacs".to_string(),
        message: message.to_string(),
        clan_name: "Insomniacs".to_string(),
        sender: "Zezima".to_string(),
        rank: "Recruit".to_string(),
    }
}

fn catalog_of(entries: &[(&str, i64)]) -> PriceCatalog {
    let mut c = PriceCatalog::new();
    let mut v = Vec::new();
    for (name, price) in entries {
        v.push(PriceEntry { name: name.to_string(), price: *price });
    }
    c.refresh(Some(v));
    c
}

fn open_policy() -> PolicyContext {
    PolicyContext { allowed_kinds: None, min_item_value: None }
}

fn expect_notice(r: Result<Option<BroadcastNotice>, trackscape::event::MalformedBroadcast>) -> BroadcastNotice {
    r.expect("pipeline reported malformed input").expect("no notice was produced")
}

#[test]
fn classify_all_templates() {
    let cases = [
        ("Zezima has received a drop: Dragon claws (1)", EventKind::ItemDrop),
        ("Zezima feels something weird sneaking into their backpack", EventKind::PetReceived),
        ("Zezima received a new collection log item: Abyssal whip", EventKind::CollectionLogSlot),
        ("Zezima has completed a quest: Dragon Slayer II", EventKind::QuestComplete),
        ("Zezima has completed a combat task: Perfect Zulrah", EventKind::CombatAchievement),
        ("Zezima has completed a master treasure trail", EventKind::ClueScrollCompleted),
        ("Zezima has completed the Elite Ardougne diary", EventKind::DiaryCompleted),
        ("Zezima has reached level 99 in Woodcutting", EventKind::LevelUp),
        ("Zezima has achieved a new personal best: Zulrah 54:03", EventKind::PersonalBest),
        ("Zezima has died", EventKind::Death),
        ("Zezima has deposited 5000 coins into the coffer", EventKind::CofferDonation),
        ("foo bar baz qux", EventKind::Unrecognized),
    ];
    for (text, kind) in cases {
        assert_eq!(classify(&msg(text)), kind, "wrong kind for {text:?}");
    }
}

#[test]
fn classify_is_deterministic() {
    let raw = msg("Zezima has received a drop: Dragon claws (1)");
    assert_eq!(classify(&raw), classify(&raw));
}

#[test]
fn extract_drop_fields() {
    let raw = msg("Zezima has received a drop: Dragon claws (3)");
    let e = extract(classify(&raw), &raw).unwrap();
    match e {
        ExtractedEvent::ItemDrop { player, item_name, quantity } => {
            assert_eq!(player, "Zezima");
            assert_eq!(item_name, "Dragon claws");
            assert_eq!(quantity, 3);
        }
        _ => panic!("wrong variant"),
    }
}

#[test]
fn extract_level_up_fields() {
    let raw = msg("Zezima has reached level 99 in Woodcutting");
    let e = extract(classify(&raw), &raw).unwrap();
    match e {
        ExtractedEvent::LevelUp { player, level, skill } => {
            assert_eq!(player, "Zezima");
            assert_eq!(level, 99);
            assert_eq!(skill, "Woodcutting");
        }
        _ => panic!("wrong variant"),
    }
}

#[test]
fn extract_clue_tier() {
    let raw = msg("Zezima has completed a master treasure trail");
    let e = extract(classify(&raw), &raw).unwrap();
    match e {
        ExtractedEvent::ClueScrollCompleted { player, tier } => {
            assert_eq!(player, "Zezima");
            assert_eq!(tier, "master");
        }
        _ => panic!("wrong variant"),
    }
}

#[test]
fn extract_coffer_amount() {
    let raw = msg("Zezima has deposited 5000 coins into the coffer");
    let e = extract(classify(&raw), &raw).unwrap();
    match e {
        ExtractedEvent::CofferDonation { player, amount } => {
            assert_eq!(player, "Zezima");
            assert_eq!(amount, 5000);
        }
        _ => panic!("wrong variant"),
    }
}

#[test]
fn malformed_drop_without_quantity() {
    let raw = msg("Zezima has received a drop: Dragon claws");
    let r = process(&raw, &open_policy(), &PriceCatalog::new());
    let err = r.expect_err("a drop without a quantity must surface as malformed");
    assert_eq!(err.raw, "Zezima has received a drop: Dragon claws");
}

#[test]
fn malformed_level_not_a_number() {
    let raw = msg("Zezima has reached level abc in Woodcutting");
    let r = process(&raw, &open_policy(), &PriceCatalog::new());
    assert!(r.is_err());
}

#[test]
fn malformed_coffer_amount() {
    let raw = msg("Zezima has deposited lots coins into the coffer");
    let r = process(&raw, &open_policy(), &PriceCatalog::new());
    assert!(r.is_err());
}

#[test]
fn malformed_drop_quantity_overflow() {
    let raw = msg("Zezima has received a drop: Dragon claws (99999999999999999999)");
    let r = process(&raw, &open_policy(), &PriceCatalog::new());
    assert!(r.is_err());
}

#[test]
fn known_drop_above_threshold_is_emitted() {
    let raw = msg("Zezima has received a drop: Dragon claws (1)");
    let catalog = catalog_of(&[("Dragon claws", 1_000_000)]);
    let policy = PolicyContext { allowed_kinds: None, min_item_value: Some(500_000) };
    let n = expect_notice(process(&raw, &policy, &catalog));
    assert_eq!(n.item_value, Some(1_000_000));
    assert_eq!(n.title, "New drop!");
    assert_eq!(n.body, "Zezima has received a drop: Dragon claws (1)");
    assert_eq!(
        n.icon_url.as_deref(),
        Some("https://oldschool.runescape.wiki/images/Dragon_claws_detail.png")
    );
}

#[test]
fn unknown_price_fails_open() {
    let raw = msg("Zezima has received a drop: Dragon claws (1)");
    let catalog = PriceCatalog::new();
    let policy = PolicyContext { allowed_kinds: None, min_item_value: Some(500_000) };
    let n = expect_notice(process(&raw, &policy, &catalog));
    assert_eq!(n.item_value, None);
}

#[test]
fn threshold_boundary_exact_value() {
    let raw = msg("Zezima has received a drop: Old boot (2)");
    let catalog = catalog_of(&[("Old boot", 100)]);
    let at = PolicyContext { allowed_kinds: None, min_item_value: Some(200) };
    let n = expect_notice(process(&raw, &at, &catalog));
    assert_eq!(n.item_value, Some(200));
    let above = PolicyContext { allowed_kinds: None, min_item_value: Some(201) };
    let r = process(&raw, &above, &catalog).unwrap();
    assert!(r.is_none(), "a value below the threshold must be dropped");
}

#[test]
fn allow_list_excludes_kind() {
    let raw = msg("Zezima has reached level 99 in Woodcutting");
    let policy = PolicyContext {
        allowed_kinds: Some(vec![EventKind::ItemDrop]),
        min_item_value: None,
    };
    let r = process(&raw, &policy, &PriceCatalog::new()).unwrap();
    assert!(r.is_none(), "an excluded kind must produce no notice");
}

#[test]
fn allow_list_admits_listed_kind() {
    let raw = msg("Zezima has reached level 99 in Woodcutting");
    let policy = PolicyContext {
        allowed_kinds: Some(vec![EventKind::ItemDrop, EventKind::LevelUp]),
        min_item_value: None,
    };
    let n = expect_notice(process(&raw, &policy, &PriceCatalog::new()));
    assert_eq!(n.title, "Level up!");
    assert_eq!(n.body, "Zezima has reached level 99 in Woodcutting");
    assert_eq!(n.icon_url, None);
    assert_eq!(n.item_value, None);
}

#[test]
fn unmatched_line_produces_nothing() {
    let raw = msg("foo bar baz qux");
    let r = process(&raw, &open_policy(), &PriceCatalog::new());
    assert!(matches!(r, Ok(None)));
}

#[test]
fn process_is_pure() {
    let raw = msg("Zezima has received a drop: Dragon claws (2)");
    let catalog = catalog_of(&[("Dragon claws", 7)]);
    let policy = open_policy();
    let a = expect_notice(process(&raw, &policy, &catalog));
    let b = expect_notice(process(&raw, &policy, &catalog));
    assert_eq!(a.title, b.title);
    assert_eq!(a.body, b.body);
    assert_eq!(a.icon_url, b.icon_url);
    assert_eq!(a.item_value, b.item_value);
    assert_eq!(a.item_value, Some(14));
}

#[test]
fn quest_and_death_bodies() {
    let raw = msg("Zezima has completed a quest: Dragon Slayer II");
    let n = expect_notice(process(&raw, &open_policy(), &PriceCatalog::new()));
    assert_eq!(n.body, "Zezima has completed a quest: Dragon Slayer II");
    let raw = msg("Zezima has died");
    let n = expect_notice(process(&raw, &open_policy(), &PriceCatalog::new()));
    assert_eq!(n.title, "Death");
    assert_eq!(n.body, "Zezima has died");
}

#[test]
fn coffer_body_renders_amount() {
    let raw = msg("Zezima has deposited 5000 coins into the coffer");
    let n = expect_notice(process(&raw, &open_policy(), &PriceCatalog::new()));
    assert_eq!(n.body, "Zezima has deposited 5000 coins into the coffer");
}
