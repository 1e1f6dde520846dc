use trackscape::catalog::{PriceCatalog, PriceEntry};
use trackscape::controller::chat_controller;
use trackscape::event::{EventKind, RawChatMessage};
use trackscape::guild::{hash_string, RegisteredGuild};
use trackscape::notice::get_wiki_clan_rank_image_url;

fn entries(list: &[(&str, i64)]) -> Vec<PriceEntry> {
    list.iter()
        .map(|(name, price)| PriceEntry { name: name.to_string(), price: *price })
        .collect()
}

#[test]
fn lookup_exact_match_only() {
    let mut c = PriceCatalog::new();
    c.refresh(Some(entries(&[("Dragon claws", 1_000_000), ("Old boot", 3)])));
    assert_eq!(c.lookup("Dragon claws"), Some(1_000_000));
    assert_eq!(c.lookup("dragon claws"), None);
    assert_eq!(c.lookup("Old boot"), Some(3));
    assert_eq!(c.lookup("Bandos chestplate"), None);
}

#[test]
fn empty_catalog_knows_nothing() {
    let c = PriceCatalog::new();
    assert_eq!(c.lookup("Dragon claws"), None);
}

#[test]
fn duplicate_names_first_entry_wins() {
    let mut c = PriceCatalog::new();
    c.refresh(Some(entries(&[("Old boot", 1), ("Old boot", 2)])));
    assert_eq!(c.lookup("Old boot"), Some(1));
}

#[test]
fn failed_refresh_keeps_previous_snapshot() {
    let mut c = PriceCatalog::new();
    c.refresh(Some(entries(&[("Dragon claws", 1_000_000)])));
    c.refresh(None);
    assert_eq!(c.lookup("Dragon claws"), Some(1_000_000));
}

#[test]
fn successful_refresh_replaces_wholesale() {
    let mut c = PriceCatalog::new();
    c.refresh(Some(entries(&[("Dragon claws", 1_000_000)])));
    c.refresh(Some(entries(&[("Old boot", 3)])));
    assert_eq!(c.lookup("Dragon claws"), None, "a refresh must never merge");
    assert_eq!(c.lookup("Old boot"), Some(3));
}

#[test]
fn rank_icons_known_and_fallback() {
    assert_eq!(
        get_wiki_clan_rank_image_url("Owner"),
        "https://oldschool.runescape.wiki/images/Owner_clan_rank.png"
    );
    assert_eq!(
        get_wiki_clan_rank_image_url("Deputy Owner"),
        "https://oldschool.runescape.wiki/images/Deputy_owner_clan_rank.png"
    );
    assert_eq!(
        get_wiki_clan_rank_image_url("Some Unknown Rank"),
        "https://oldschool.runescape.wiki/images/Clan_icon.png"
    );
}

#[test]
fn new_guild_has_well_formed_code() {
    let g = RegisteredGuild::new(42);
    assert_eq!(g.guild_id, 42);
    assert!(!g.verified);
    assert!(g.clan_name.is_none());
    let code: Vec<char> = g.verification_code.chars().collect();
    assert_eq!(code.len(), 11);
    for (i, c) in code.iter().enumerate() {
        if i == 3 || i == 7 {
            assert_eq!(*c, '-');
        } else {
            assert!(c.is_ascii_digit(), "position {i} of {code:?} is not a digit");
        }
    }
    assert_eq!(g.hashed_verification_code, hash_string(&g.verification_code));
}

#[test]
fn hash_string_is_a_digest() {
    assert_eq!(hash_string("abc"), hash_string("abc"));
    assert_ne!(hash_string("abc"), hash_string("abd"));
    assert_ne!(hash_string("abc"), "abc", "the digest must not echo its input");
}

fn chat(message: &str, sender: &str, rank: &str) -> RawChatMessage {
    RawChatMessage {
        author: "Insomniacs".to_string(),
        message: message.to_string(),
        clan_name: "Insomniacs".to_string(),
        sender: sender.to_string(),
        rank: rank.to_string(),
    }
}

fn registered() -> RegisteredGuild {
    let mut g = RegisteredGuild::new(1);
    g.clan_chat_channel = Some(10);
    g.broadcast_channel = Some(20);
    g
}

#[test]
fn controller_skips_duplicates() {
    let g = registered();
    let d = chat_controller(&g, &chat("hello", "Zezima", "Recruit"), true, &PriceCatalog::new())
        .unwrap();
    assert!(d.set_clan_name.is_none());
    assert!(d.relay.is_none());
    assert!(d.broadcast.is_none());
}

#[test]
fn controller_records_clan_name_once() {
    let mut g = registered();
    let c = chat("hello", "Zezima", "Recruit");
    let d = chat_controller(&g, &c, false, &PriceCatalog::new()).unwrap();
    assert_eq!(d.set_clan_name.as_deref(), Some("Insomniacs"));
    g.clan_name = Some("Insomniacs".to_string());
    let d = chat_controller(&g, &c, false, &PriceCatalog::new()).unwrap();
    assert!(d.set_clan_name.is_none());
}

#[test]
fn controller_relays_with_rank_icon() {
    let g = registered();
    let d = chat_controller(&g, &chat("hello", "Zezima", "Owner"), false, &PriceCatalog::new())
        .unwrap();
    let rel = d.relay.expect("a configured relay channel must relay");
    assert_eq!(rel.sender, "Zezima");
    assert_eq!(rel.body, "hello");
    assert_eq!(rel.icon_url, "https://oldschool.runescape.wiki/images/Owner_clan_rank.png");
}

#[test]
fn controller_relays_clan_sender_with_clan_icon() {
    let g = registered();
    let d = chat_controller(
        &g,
        &chat("hello", "Insomniacs", "Recruit"),
        false,
        &PriceCatalog::new(),
    )
    .unwrap();
    let rel = d.relay.unwrap();
    assert_eq!(rel.icon_url, "https://oldschool.runescape.wiki/images/Your_Clan_icon.png");
}

#[test]
fn controller_broadcasts_through_the_pipeline() {
    let mut g = registered();
    g.drop_price_threshold = Some(500_000);
    let mut catalog = PriceCatalog::new();
    catalog.refresh(Some(entries(&[("Dragon claws", 1_000_000)])));
    let c = chat("Zezima has received a drop: Dragon claws (1)", "Zezima", "Recruit");
    let d = chat_controller(&g, &c, false, &catalog).unwrap();
    let n = d.broadcast.expect("the drop is above the threshold");
    assert_eq!(n.item_value, Some(1_000_000));
    let mut below = registered();
    below.drop_price_threshold = Some(2_000_000);
    let d = chat_controller(&below, &c, false, &catalog).unwrap();
    assert!(d.broadcast.is_none(), "a drop below the threshold must not broadcast");
}

#[test]
fn controller_respects_allow_list() {
    let mut g = registered();
    g.allowed_broadcast_types = Some(vec![EventKind::ItemDrop]);
    let c = chat("Zezima has reached level 99 in Woodcutting", "Zezima", "Recruit");
    let d = chat_controller(&g, &c, false, &PriceCatalog::new()).unwrap();
    assert!(d.broadcast.is_none());
}

#[test]
fn controller_surfaces_malformed_broadcasts() {
    let g = registered();
    let c = chat("Zezima has received a drop: Dragon claws", "Zezima", "Recruit");
    let err = chat_controller(&g, &c, false, &PriceCatalog::new())
        .expect_err("a matched template with a broken payload must surface");
    assert_eq!(err.raw, "Zezima has received a drop: Dragon claws");
}

#[test]
fn controller_without_channels_does_nothing() {
    let g = RegisteredGuild::new(1);
    let c = chat("Zezima has died", "Zezima", "Recruit");
    let d = chat_controller(&g, &c, false, &PriceCatalog::new()).unwrap();
    assert!(d.relay.is_none());
    assert!(d.broadcast.is_none());
}

#[test]
fn assign_code_replaces_code_and_digest() {
    let mut g = RegisteredGuild::new(7);
    let code = RegisteredGuild::generate_code();
    g.assign_code(code.clone());
    assert_eq!(g.verification_code, code);
    assert_eq!(g.hashed_verification_code, hash_string(&code));
    assert_eq!(g.guild_id, 7);
}
