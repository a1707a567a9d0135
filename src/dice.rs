use crate::state::Address;
use vstd::prelude::*;

verus! {

/// The Keccak-256 digest of a byte string.
pub uninterp spec fn keccak256_of(data: Seq<u8>) -> Seq<u8>;

/// Relies on `solana_program::keccak::hash`: the Keccak-256 digest of the
/// given bytes, returned as its 32 bytes.
#[verifier::external_body]
fn keccak256(data: &Vec<u8>) -> (r: [u8; 32])
    ensures
        r@ == keccak256_of(data@),
{
    anchor_lang::solana_program::keccak::hash(data.as_slice()).to_bytes()
}

/// The eight bytes of a timestamp, most significant first.
pub open spec fn be_bytes(t: i64) -> Seq<u8> {
    let u = t as u64;
    seq![
        (u >> 56u64) as u8,
        (u >> 48u64) as u8,
        (u >> 40u64) as u8,
        (u >> 32u64) as u8,
        (u >> 24u64) as u8,
        (u >> 16u64) as u8,
        (u >> 8u64) as u8,
        u as u8,
    ]
}

/// The bytes that seed a roll: the identity followed by the timestamp.
pub open spec fn seed_of(player: Seq<u8>, now: i64) -> Seq<u8> {
    player + be_bytes(now)
}

/// The five faces read from a digest: byte `i` taken modulo 6, plus one.
pub open spec fn faces_of(hash: Seq<u8>) -> Seq<u8> {
    Seq::new(5, |i: int| (hash[i] % 6 + 1) as u8)
}

/// Five values packed three bits apiece, value `i` at bits `3i` to `3i + 2`.
pub open spec fn pack(d: Seq<u8>) -> u16 {
    (d[0] as u16) | ((d[1] as u16) << 3u16) | ((d[2] as u16) << 6u16) | ((d[3] as u16) << 9u16)
        | ((d[4] as u16) << 12u16)
}

/// The five three-bit fields of a packed value.
pub open spec fn unpack(p: u16) -> Seq<u8> {
    seq![
        (p & 7u16) as u8,
        ((p >> 3u16) & 7u16) as u8,
        ((p >> 6u16) & 7u16) as u8,
        ((p >> 9u16) & 7u16) as u8,
        ((p >> 12u16) & 7u16) as u8,
    ]
}

/// Every value of the sequence is a die face, 1 to 6.
pub open spec fn all_faces(d: Seq<u8>) -> bool {
    forall|i: int| 0 <= i < d.len() ==> 1 <= #[trigger] d[i] <= 6
}

/// The packed dice that a roll by `player` at time `now` yields.
pub open spec fn rolled_dice(player: Seq<u8>, now: i64) -> u16 {
    pack(faces_of(keccak256_of(seed_of(player, now))))
}

/// Builds the 40-byte seed of a roll.
pub fn roll_seed(player: &Address, now: i64) -> (r: Vec<u8>)
    ensures
        r@ == seed_of(player@, now),
{
    let mut r: Vec<u8> = Vec::new();
    let mut i: usize = 0;
    while i < 32
        invariant
            0 <= i <= 32,
            r@ == player@.take(i as int),
        decreases 32 - i,
    {
        r.push(player.bytes[i]);
        assert(player@.take(i + 1) =~= player@.take(i as int).push(player@[i as int]));
        i = i + 1;
    }
    assert(player@.take(32) =~= player@);
    let u = now as u64;
    r.push((u >> 56u64) as u8);
    r.push((u >> 48u64) as u8);
    r.push((u >> 40u64) as u8);
    r.push((u >> 32u64) as u8);
    r.push((u >> 24u64) as u8);
    r.push((u >> 16u64) as u8);
    r.push((u >> 8u64) as u8);
    r.push(u as u8);
    assert(r@ =~= seed_of(player@, now));
    r
}

/// Packs five values of three bits each into one integer.
pub fn pack_dice_rolls(dice: &Vec<u8>) -> (r: u16)
    requires
        dice@.len() == 5,
    ensures
        r == pack(dice@),
{
    (dice[0] as u16) | ((dice[1] as u16) << 3u16) | ((dice[2] as u16) << 6u16) | ((dice[3] as u16)
        << 9u16) | ((dice[4] as u16) << 12u16)
}

/// Reads the five three-bit fields of a packed value.
pub fn unpack_dice_rolls(packed: u16) -> (r: Vec<u8>)
    ensures
        r@ == unpack(packed),
{
    let mut r: Vec<u8> = Vec::new();
    r.push((packed & 7u16) as u8);
    r.push(((packed >> 3u16) & 7u16) as u8);
    r.push(((packed >> 6u16) & 7u16) as u8);
    r.push(((packed >> 9u16) & 7u16) as u8);
    r.push(((packed >> 12u16) & 7u16) as u8);
    assert(r@ =~= unpack(packed));
    r
}

/// Turns a digest into five packed die faces.
pub fn dice_from_hash(hash: &[u8; 32]) -> (r: u16)
    ensures
        r == pack(faces_of(hash@)),
        all_faces(unpack(r)),
{
    let mut faces: Vec<u8> = Vec::new();
    let mut i: usize = 0;
    while i < 5
        invariant
            0 <= i <= 5,
            faces@ == faces_of(hash@).take(i as int),
        decreases 5 - i,
    {
        faces.push(hash[i] % 6 + 1);
        assert(faces@ =~= faces_of(hash@).take(i + 1));
        i = i + 1;
    }
    assert(faces@ =~= faces_of(hash@));
    let r = pack_dice_rolls(&faces);
    proof {
        lemma_unpack_pack(faces@);
    }
    r
}

/// The dice that a roll by `player` at time `now` yields, packed.
pub fn roll(player: &Address, now: i64) -> (r: u16)
    ensures
        r == rolled_dice(player@, now),
        all_faces(unpack(r)),
{
    let seed = roll_seed(player, now);
    let hash = keccak256(&seed);
    dice_from_hash(&hash)
}

/// Unpacking a packed set of five dice gives the dice back.
pub proof fn lemma_unpack_pack(d: Seq<u8>)
    requires
        d.len() == 5,
        forall|i: int| 0 <= i < 5 ==> #[trigger] d[i] <= 7,
    ensures
        unpack(pack(d)) == d,
{
    let (a, b, c, e, f) = (d[0], d[1], d[2], d[3], d[4]);
    assert(a <= 7 && b <= 7 && c <= 7 && e <= 7 && f <= 7);
    let p = pack(d);
    assert(p == (a as u16) | ((b as u16) << 3u16) | ((c as u16) << 6u16) | ((e as u16) << 9u16)
        | ((f as u16) << 12u16));
    assert((p & 7u16) as u8 == a && ((p >> 3u16) & 7u16) as u8 == b && ((p >> 6u16) & 7u16) as u8
        == c && ((p >> 9u16) & 7u16) as u8 == e && ((p >> 12u16) & 7u16) as u8 == f) by (bit_vector)
        requires
            a <= 7 && b <= 7 && c <= 7 && e <= 7 && f <= 7,
            p == (a as u16) | ((b as u16) << 3u16) | ((c as u16) << 6u16) | ((e as u16) << 9u16)
                | ((f as u16) << 12u16),
    ;
    assert(unpack(p) =~= d);
}

/// A roll depends on nothing but the identity and the time: the same two
/// inputs give the same dice, and every die is a face from 1 to 6.
pub proof fn lemma_roll_deterministic(id_a: Seq<u8>, time_a: i64, id_b: Seq<u8>, time_b: i64)
    requires
        id_a == id_b,
        time_a == time_b,
    ensures
        rolled_dice(id_a, time_a) == rolled_dice(id_b, time_b),
        all_faces(unpack(rolled_dice(id_a, time_a))),
{
    let h = keccak256_of(seed_of(id_a, time_a));
    assert forall|i: int| 0 <= i < 5 implies #[trigger] faces_of(h)[i] <= 7 by {
        assert(h[i] % 6 + 1 <= 6);
    }
    lemma_unpack_pack(faces_of(h));
    assert forall|i: int| 0 <= i < 5 implies 1 <= #[trigger] unpack(rolled_dice(id_a, time_a))[i]
        <= 6 by {
        assert(h[i] % 6 + 1 <= 6);
    }
}

} // verus!
