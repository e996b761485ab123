//! The two 128-bit identifiers minted for every new record: a random
//! partition key and a time-ordered clustering key. The time-ordered
//! identifier embeds a millisecond timestamp and a 14-bit differentiator
//! in the classic time-based layout, so that identifiers minted later
//! sort after identifiers minted earlier and simultaneous creations
//! stay distinct. `IdGenerator` holds the last timestamp and
//! differentiator handed out and never hands the same pair out twice.

use vstd::prelude::*;

verus! {

/// The largest timestamp the 60-bit time field can carry.
pub const MAX_TICKS: u64 = 0x0FFF_FFFF_FFFF_FFFF;

/// The largest value the 14-bit differentiator can carry.
pub const MAX_COUNTER: u16 = 0x3FFF;

/// The fixed six-byte node value placed in the low 48 bits of every
/// time-ordered identifier.
pub open spec fn spec_node_id() -> Seq<u8> {
    seq![1u8, 2u8, 3u8, 4u8, 5u8, 6u8]
}

/// The fixed node value, as the six bytes handed to the identifier
/// builder.
pub fn node_id() -> (r: [u8; 6])
    ensures
        r@ =~= spec_node_id(),
{
    [1u8, 2u8, 3u8, 4u8, 5u8, 6u8]
}

/// The time-based identifier layout over its scalar parts: 32 low
/// timestamp bits, 16 middle bits, the version nibble over the 12 high
/// bits, the variant bits over the 14-bit differentiator, then the six
/// node bytes.
pub open spec fn spec_v1_pack_bytes(
    ticks: u64,
    counter: u16,
    n0: u8,
    n1: u8,
    n2: u8,
    n3: u8,
    n4: u8,
    n5: u8,
) -> u128 {
    (((ticks & 0xFFFF_FFFF) as u128) << 96) | ((((ticks >> 32) & 0xFFFF) as u128) << 80) | (((((
    ticks >> 48) & 0x0FFF) | 0x1000) as u128) << 64) | (((((counter as u128) & 0x3F00) >> 8)
        | 0x80) << 56) | (((counter & 0xFF) as u128) << 48) | ((n0 as u128) << 40) | ((n1
        as u128) << 32) | ((n2 as u128) << 24) | ((n3 as u128) << 16) | ((n4 as u128) << 8) | (n5
        as u128)
}

/// The time-based identifier layout, with the node given as bytes.
pub open spec fn spec_v1_pack(ticks: u64, counter: u16, node: Seq<u8>) -> u128 {
    spec_v1_pack_bytes(ticks, counter, node[0], node[1], node[2], node[3], node[4], node[5])
}

/// The timestamp a time-ordered identifier embeds.
pub open spec fn spec_ticks_of(id: u128) -> u64 {
    (((((id >> 64) & 0x0FFF) << 48) | (((id >> 80) & 0xFFFF) << 32) | ((id >> 96)
        & 0xFFFF_FFFF)) as u64)
}

/// The differentiator a time-ordered identifier embeds.
pub open spec fn spec_counter_of(id: u128) -> u16 {
    (((id >> 48) & 0x3FFF) as u16)
}

/// The key a store sorts a time-ordered identifier by: the timestamp
/// first, the differentiator second.
pub open spec fn spec_time_key_of(id: u128) -> int {
    spec_ticks_of(id) * 0x4000 + spec_counter_of(id)
}

/// A well-formed time-ordered identifier: version 1, standard variant.
pub open spec fn spec_is_time_ordered_id(id: u128) -> bool {
    (id >> 76) & 0xF == 1 && (id >> 62) & 0x3 == 2
}

/// A well-formed random identifier: version 4, standard variant.
pub open spec fn spec_is_random_id(id: u128) -> bool {
    (id >> 76) & 0xF == 4 && (id >> 62) & 0x3 == 2
}

/// The packed fields are recovered exactly, and the packed identifier
/// is well-formed and so never zero.
pub proof fn lemma_v1_pack_fields(
    ticks: u64,
    counter: u16,
    n0: u8,
    n1: u8,
    n2: u8,
    n3: u8,
    n4: u8,
    n5: u8,
)
    by (bit_vector)
    requires
        ticks <= 0x0FFF_FFFF_FFFF_FFFF,
        counter <= 0x3FFF,
    ensures
        spec_ticks_of(spec_v1_pack_bytes(ticks, counter, n0, n1, n2, n3, n4, n5)) == ticks,
        spec_counter_of(spec_v1_pack_bytes(ticks, counter, n0, n1, n2, n3, n4, n5)) == counter,
        spec_is_time_ordered_id(spec_v1_pack_bytes(ticks, counter, n0, n1, n2, n3, n4, n5)),
        spec_v1_pack_bytes(ticks, counter, n0, n1, n2, n3, n4, n5) != 0,
{
}

/// A well-formed random identifier is never zero.
pub proof fn lemma_random_id_nonzero(id: u128)
    by (bit_vector)
    requires
        spec_is_random_id(id),
    ensures
        id != 0,
{
}

/// Relies on `uuid::Uuid::new_v4`: random bits with the version nibble
/// set to 4 and the variant bits set to the standard pattern.
#[verifier::external_body]
pub(crate) fn uuid_new_v4() -> (r: u128)
    ensures
        spec_is_random_id(r),
{
    uuid::Uuid::new_v4().as_u128()
}

/// Relies on `uuid::Uuid::new_v1` (through
/// `uuid::Timestamp::from_gregorian_time`): the timestamp, the 14-bit
/// counter and the node bytes are packed into the documented
/// time-based layout.
#[verifier::external_body]
pub(crate) fn uuid_new_v1(ticks: u64, counter: u16, node: &[u8; 6]) -> (r: u128)
    ensures
        r == spec_v1_pack(ticks, counter, node@),
{
    uuid::Uuid::new_v1(uuid::Timestamp::from_gregorian_time(ticks, counter), node).as_u128()
}

/// What `uuid::Uuid::parse_str` makes of a string: the identifier it
/// denotes, or nothing where it is not a valid textual identifier.
pub uninterp spec fn spec_uuid_parse(s: Seq<char>) -> Option<u128>;

/// Relies on `uuid::Uuid::parse_str`: the outcome depends on the
/// characters alone.
#[verifier::external_body]
pub(crate) fn uuid_parse(s: &str) -> (r: Option<u128>)
    ensures
        r == spec_uuid_parse(s@),
{
    match uuid::Uuid::parse_str(s) {
        Ok(u) => Some(u.as_u128()),
        Err(_) => None,
    }
}

/// What the hyphenated rendering of an identifier looks like.
pub uninterp spec fn spec_uuid_hyphenated(id: u128) -> Seq<char>;

/// Relies on `uuid::fmt::Hyphenated` (through `Uuid::hyphenated`): 36
/// characters that depend on the identifier alone, and that
/// `uuid::Uuid::parse_str` reads back as the same identifier.
#[verifier::external_body]
pub(crate) fn uuid_format(id: u128) -> (r: String)
    ensures
        r@ == spec_uuid_hyphenated(id),
        r@.len() == 36,
        spec_uuid_parse(r@) == Some(id),
{
    uuid::Uuid::from_u128(id).hyphenated().to_string()
}

/// A fresh random partition-key identifier.
pub fn new_random_user_id() -> (id: u128)
    ensures
        spec_is_random_id(id),
        id != 0,
{
    let id = uuid_new_v4();
    proof {
        lemma_random_id_nonzero(id);
    }
    id
}

/// The parsed value of a textual identifier, or nothing where the
/// text is invalid.
pub fn parse_identifier(s: &str) -> (r: Option<u128>)
    ensures
        r == spec_uuid_parse(s@),
{
    uuid_parse(s)
}

/// The canonical hyphenated text of an identifier; parsing it returns
/// the identifier itself.
pub fn identifier_to_string(id: u128) -> (r: String)
    ensures
        r@ == spec_uuid_hyphenated(id),
        r@.len() == 36,
        spec_uuid_parse(r@) == Some(id),
{
    uuid_format(id)
}

/// Mints time-ordered identifiers: it remembers the last timestamp and
/// differentiator handed out, and never repeats the pair.
pub struct IdGenerator {
    pub last_ticks: u64,
    pub counter: u16,
}

impl IdGenerator {
    /// The timestamp fits its 60-bit field and the differentiator its
    /// 14 bits.
    pub open spec fn wf(self) -> bool {
        self.last_ticks <= MAX_TICKS && self.counter <= MAX_COUNTER
    }

    /// A fresh generator, before any identifier was handed out.
    pub fn new() -> (g: IdGenerator)
        ensures
            g.wf(),
            spec_gen_key(g) == 0,
    {
        IdGenerator { last_ticks: 0, counter: 0 }
    }

    /// Mints the next time-ordered identifier at the given millisecond
    /// clock reading. The identifier embeds the generator's new
    /// timestamp and differentiator, and its sort key strictly grows
    /// from mint to mint until the generator is exhausted.
    pub fn mint_time_ordered_id(&mut self, now_ms: u64) -> (id: u128)
        requires
            old(self).wf(),
        ensures
            *final(self) == spec_mint_state(*old(self), now_ms),
            final(self).wf(),
            id == spec_minted_id(*old(self), now_ms),
            spec_is_time_ordered_id(id),
            id != 0,
            spec_ticks_of(id) == final(self).last_ticks,
            spec_counter_of(id) == final(self).counter,
            spec_time_key_of(id) == spec_gen_key(*final(self)),
            spec_gen_key(*final(self)) >= spec_gen_key(*old(self)),
            spec_gen_key(*old(self)) < spec_max_gen_key() ==> spec_gen_key(*final(self))
                > spec_gen_key(*old(self)),
    {
        let t = now_ms & MAX_TICKS;
        proof {
            assert((now_ms & 0x0FFF_FFFF_FFFF_FFFFu64) <= 0x0FFF_FFFF_FFFF_FFFF) by (bit_vector);
        }
        if t > self.last_ticks {
            self.last_ticks = t;
            self.counter = 0;
        } else if self.counter < MAX_COUNTER {
            self.counter = self.counter + 1;
        } else if self.last_ticks < MAX_TICKS {
            self.last_ticks = self.last_ticks + 1;
            self.counter = 0;
        }
        let node = node_id();
        let id = uuid_new_v1(self.last_ticks, self.counter, &node);
        proof {
            lemma_mint_state_wf(*old(self), now_ms);
            lemma_mint_state_grows(*old(self), now_ms);
            lemma_v1_pack_fields(self.last_ticks, self.counter, 1u8, 2u8, 3u8, 4u8, 5u8, 6u8);
            assert(spec_v1_pack(self.last_ticks, self.counter, node@) == spec_v1_pack_bytes(
                self.last_ticks,
                self.counter,
                1u8,
                2u8,
                3u8,
                4u8,
                5u8,
                6u8,
            ));
        }
        id
    }
}

/// The sort key of the pair a generator hands out next to last: its
/// timestamp weighted above its differentiator.
pub open spec fn spec_gen_key(g: IdGenerator) -> int {
    g.last_ticks * 0x4000 + g.counter
}

/// The largest sort key a generator can reach.
pub open spec fn spec_max_gen_key() -> int {
    0x0FFF_FFFF_FFFF_FFFFint * 0x4000 + 0x3FFF
}

/// The generator state after minting at the given clock reading: the
/// clock advances the timestamp and resets the differentiator; a stale
/// clock bumps the differentiator instead, borrowing a timestamp step
/// once the differentiator is exhausted.
pub open spec fn spec_mint_state(g: IdGenerator, now_ms: u64) -> IdGenerator {
    let t = now_ms & MAX_TICKS;
    if t > g.last_ticks {
        IdGenerator { last_ticks: t, counter: 0 }
    } else if g.counter < MAX_COUNTER {
        IdGenerator { last_ticks: g.last_ticks, counter: (g.counter + 1) as u16 }
    } else if g.last_ticks < MAX_TICKS {
        IdGenerator { last_ticks: (g.last_ticks + 1) as u64, counter: 0 }
    } else {
        g
    }
}

/// The identifier minted at the given clock reading.
pub open spec fn spec_minted_id(g: IdGenerator, now_ms: u64) -> u128 {
    spec_v1_pack(
        spec_mint_state(g, now_ms).last_ticks,
        spec_mint_state(g, now_ms).counter,
        spec_node_id(),
    )
}

/// Two identifiers minted in succession, at any two clock readings,
/// are distinct, and the later one carries the strictly larger sort
/// key, so sorting by it recovers creation order. The one state left
/// out is a generator already at its very last pair.
pub proof fn lemma_successive_mints_ordered(g: IdGenerator, t1: u64, t2: u64)
    requires
        g.wf(),
        spec_gen_key(spec_mint_state(g, t1)) < spec_max_gen_key(),
    ensures
        spec_time_key_of(spec_minted_id(g, t1)) < spec_time_key_of(
            spec_minted_id(spec_mint_state(g, t1), t2),
        ),
        spec_minted_id(g, t1) != spec_minted_id(spec_mint_state(g, t1), t2),
{
    let g1 = spec_mint_state(g, t1);
    let g2 = spec_mint_state(g1, t2);
    lemma_mint_state_wf(g, t1);
    lemma_mint_state_wf(g1, t2);
    lemma_mint_state_grows(g1, t2);
    lemma_v1_pack_fields(g1.last_ticks, g1.counter, 1u8, 2u8, 3u8, 4u8, 5u8, 6u8);
    lemma_v1_pack_fields(g2.last_ticks, g2.counter, 1u8, 2u8, 3u8, 4u8, 5u8, 6u8);
}

/// Minting preserves the generator's well-formedness.
pub proof fn lemma_mint_state_wf(g: IdGenerator, now_ms: u64)
    requires
        g.wf(),
    ensures
        spec_mint_state(g, now_ms).wf(),
{
    assert((now_ms & 0x0FFF_FFFF_FFFF_FFFFu64) <= 0x0FFF_FFFF_FFFF_FFFF) by (bit_vector);
}

/// The generator's sort key never falls, and strictly grows until the
/// generator is exhausted.
pub proof fn lemma_mint_state_grows(g: IdGenerator, now_ms: u64)
    requires
        g.wf(),
    ensures
        spec_gen_key(spec_mint_state(g, now_ms)) >= spec_gen_key(g),
        spec_gen_key(g) < spec_max_gen_key() ==> spec_gen_key(spec_mint_state(g, now_ms))
            > spec_gen_key(g),
{
    let t = now_ms & MAX_TICKS;
    assert((now_ms & 0x0FFF_FFFF_FFFF_FFFFu64) <= 0x0FFF_FFFF_FFFF_FFFF) by (bit_vector);
    if t > g.last_ticks {
        assert(t * 0x4000 >= (g.last_ticks + 1) * 0x4000);
    }
}

} // verus!
