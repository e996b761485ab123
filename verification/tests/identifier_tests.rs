use user_profile_service::identifiers::IdGenerator;
use user_profile_service::identifiers::identifier_to_string;
use user_profile_service::identifiers::new_random_user_id;
use user_profile_service::identifiers::parse_identifier;

fn version_nibble(id: u128) -> u128 {
    (id >> 76) & 0xF
}

fn variant_bits(id: u128) -> u128 {
    (id >> 62) & 0x3
}

fn ticks_of(id: u128) -> u64 {
    ((((id >> 64) & 0x0FFF) << 48) | (((id >> 80) & 0xFFFF) << 32) | ((id >> 96) & 0xFFFF_FFFF))
        as u64
}

fn counter_of(id: u128) -> u16 {
    ((id >> 48) & 0x3FFF) as u16
}

#[test]
fn random_user_id_is_well_formed() {
    let id = new_random_user_id();
    assert_ne!(id, 0);
    assert_eq!(version_nibble(id), 4);
    assert_eq!(variant_bits(id), 0b10);
}

#[test]
fn two_random_user_ids_differ() {
    let a = new_random_user_id();
    let b = new_random_user_id();
    assert_ne!(a, b);
}

#[test]
fn minted_id_embeds_timestamp_and_counter() {
    let mut gen = IdGenerator::new();
    let id = gen.mint_time_ordered_id(1_700_000_000_123);
    assert_eq!(version_nibble(id), 1);
    assert_eq!(variant_bits(id), 0b10);
    assert_eq!(ticks_of(id), 1_700_000_000_123);
    assert_eq!(counter_of(id), 0);
}

#[test]
fn quick_succession_mints_are_distinct_and_ordered() {
    let mut gen = IdGenerator::new();
    let now = 1_700_000_000_123u64;
    let a = gen.mint_time_ordered_id(now);
    let b = gen.mint_time_ordered_id(now);
    let c = gen.mint_time_ordered_id(now);
    assert_ne!(a, b);
    assert_ne!(b, c);
    assert_ne!(a, c);
    let key = |id: u128| (ticks_of(id), counter_of(id));
    let mut sorted = vec![c, a, b];
    sorted.sort_by_key(|id| key(*id));
    assert_eq!(sorted, vec![a, b, c]);
}

#[test]
fn clock_going_backwards_still_advances_order() {
    let mut gen = IdGenerator::new();
    let a = gen.mint_time_ordered_id(2_000);
    let b = gen.mint_time_ordered_id(1_000);
    let key = |id: u128| (ticks_of(id), counter_of(id));
    assert_ne!(a, b);
    assert!(key(a) < key(b));
}

#[test]
fn identifier_text_round_trips() {
    let id = 0x0123_4567_89AB_CDEF_0011_2233_4455_6677u128;
    let text = identifier_to_string(id);
    assert_eq!(text.len(), 36);
    assert_eq!(text, "01234567-89ab-cdef-0011-223344556677");
    assert_eq!(parse_identifier(&text), Some(id));
}

#[test]
fn minted_identifier_text_round_trips() {
    let mut gen = IdGenerator::new();
    let id = gen.mint_time_ordered_id(1_700_000_000_123);
    let text = identifier_to_string(id);
    assert_eq!(parse_identifier(&text), Some(id));
}

#[test]
fn invalid_identifier_text_is_rejected() {
    assert_eq!(parse_identifier("not-a-uuid"), None);
    assert_eq!(parse_identifier(""), None);
    assert_eq!(parse_identifier("01234567-89ab-cdef-0011-22334455667"), None);
}
