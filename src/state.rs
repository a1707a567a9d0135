use crate::dice::{all_faces, unpack};
use vstd::prelude::*;

verus! {

/// A 32-byte account identity.
#[derive(Debug, Clone, Copy)]
pub struct Address {
    pub bytes: [u8; 32],
}

impl View for Address {
    type V = Seq<u8>;

    open spec fn view(&self) -> Seq<u8> {
        self.bytes@
    }
}

impl Address {
    /// The all-zero address, which stands for "nobody".
    pub fn zero() -> (r: Address)
        ensures
            r@ == nobody(),
    {
        let r = Address { bytes: [0u8; 32] };
        assert(r@ =~= nobody());
        r
    }

    pub fn new(bytes: [u8; 32]) -> (r: Address)
        ensures
            r@ == bytes@,
    {
        Address { bytes }
    }
}

impl PartialEq for Address {
    fn eq(&self, o: &Address) -> (r: bool) {
        let mut i: usize = 0;
        while i < 32
            invariant
                0 <= i <= 32,
                forall|j: int| 0 <= j < i ==> self.bytes@[j] == o.bytes@[j],
            decreases 32 - i,
        {
            if self.bytes[i] != o.bytes[i] {
                return false;
            }
            i = i + 1;
        }
        assert(self@ =~= o@);
        true
    }
}

impl vstd::std_specs::cmp::PartialEqSpecImpl for Address {
    open spec fn obeys_eq_spec() -> bool {
        true
    }

    open spec fn eq_spec(&self, o: &Address) -> bool {
        self@ == o@
    }
}

impl Eq for Address {}

/// The shared record of the game: configuration, the best score so far and
/// who holds it.
#[derive(Debug, Clone, Copy)]
pub struct GlobalState {
    pub dev: Address,
    pub current_jackpot: u64,
    pub highest_score: u64,
    pub current_winner: Address,
    pub games_till_jackpot: u64,
    pub round_start_time: i64,
    pub round: u64,
    pub price_to_play: u64,
}

/// One player's session.
#[derive(Debug, Clone, Copy)]
pub struct GameState {
    pub owner: Address,
    pub credit: u8,
    pub can_roll: bool,
    pub upper_score: u64,
    pub lower_score: u64,
    pub roll_dice_compressed: u16,
    pub last_roll_time: i64,
}

/// The identity of nobody: thirty-two zero bytes.
pub open spec fn nobody() -> Seq<u8> {
    Seq::new(32, |i: int| 0u8)
}

impl GameState {
    /// The session invariant: credit is 0 or 1, dice can only be waiting to
    /// be scored on a paid session, and waiting dice are faces 1 to 6.
    pub open spec fn wf(&self) -> bool {
        &&& self.credit <= 1
        &&& self.credit == 0 ==> !self.can_roll
        &&& self.can_roll ==> all_faces(unpack(self.roll_dice_compressed))
    }

    /// A session in the idle state: no credit and nothing rolled.
    pub open spec fn is_idle(&self) -> bool {
        &&& self.credit == 0
        &&& !self.can_roll
        &&& self.upper_score == 0
        &&& self.lower_score == 0
        &&& self.roll_dice_compressed == 0
    }
}

} // verus!
