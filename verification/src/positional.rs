//! Hand geometry of key positions.
use vstd::prelude::*;

verus! {

/// Which hand a key belongs to.
#[derive(Clone, Copy, Debug, PartialEq, Eq, Structural)]
pub enum Hand {
    Unknown,
    Left,
    Right,
    Bilateral,
}

/// Both keys sit on the same (known, single) hand.
pub open spec fn same_side(a: Hand, b: Hand) -> bool {
    (a == Hand::Left && b == Hand::Left) || (a == Hand::Right && b == Hand::Right)
}

/// `b` may activate an opposite-hand-only hold of `a`.
pub open spec fn opposite_hand_triggers(a: Hand, b: Hand) -> bool {
    ||| (a == Hand::Left && b == Hand::Right)
    ||| (a == Hand::Right && b == Hand::Left)
    ||| ((a == Hand::Left || a == Hand::Right) && b == Hand::Bilateral)
}

impl Hand {
    /// Whether two keys sit on the same hand for unilateral-tap decisions.
    ///
    /// Only `Left`/`Left` and `Right`/`Right` qualify; `Unknown` and `Bilateral`
    /// keys are never on the "same side", even paired with themselves.
    pub fn is_same_side(self, other: Hand) -> (r: bool)
        ensures
            r == same_side(self, other),
    {
        match (self, other) {
            (Hand::Left, Hand::Left) | (Hand::Right, Hand::Right) => true,
            _ => false,
        }
    }

    /// Whether `other` is allowed to activate an opposite-hand-only hold.
    ///
    /// Bilateral keys activate holds from either hand; unknown geometry is never
    /// treated as opposite.
    pub fn triggers_opposite_hand_hold(self, other: Hand) -> (r: bool)
        ensures
            r == opposite_hand_triggers(self, other),
    {
        match (self, other) {
            (Hand::Left, Hand::Right) | (Hand::Right, Hand::Left) => true,
            (Hand::Left, Hand::Bilateral) | (Hand::Right, Hand::Bilateral) => true,
            _ => false,
        }
    }
}

/// Configuration that only depends on a key's position: currently its hand.
pub struct PositionalConfig<const ROW: usize, const COL: usize> {
    pub hand: [[Hand; COL]; ROW],
}

impl<const ROW: usize, const COL: usize> PositionalConfig<ROW, COL> {
    pub fn new(hand: [[Hand; COL]; ROW]) -> (r: Self)
        ensures
            r.hand == hand,
    {
        PositionalConfig { hand }
    }
}

/// An unknown-hand key never counts as the same side as anything.
pub proof fn lemma_unknown_is_never_same_side(h: Hand)
    ensures
        !same_side(Hand::Unknown, h),
        !same_side(h, Hand::Unknown),
{
}

/// Same-side is symmetric, and same-side keys never trigger an opposite-hand hold.
pub proof fn lemma_same_side_excludes_opposite(a: Hand, b: Hand)
    ensures
        same_side(a, b) == same_side(b, a),
        same_side(a, b) ==> !opposite_hand_triggers(a, b),
{
}

} // verus!
