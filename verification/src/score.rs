//! Classifier scores as IEEE-754 binary32 bit patterns, their order, and the
//! selection of the winning class.

use vstd::prelude::*;

verus! {

/// The bit pattern of the sign bit; also the number of distinct magnitudes.
pub const SIGN_BIT: u32 = 0x8000_0000u32;

/// The bit pattern of positive infinity: the largest magnitude that is a number.
pub const INFINITY_BITS: u32 = 0x7f80_0000u32;

/// One binary32 value, held as its bit pattern.
#[derive(Clone, Copy, Debug, PartialEq, Eq)]
pub struct Score {
    pub bits: u32,
}

impl Score {
    /// The bit pattern without its sign bit.
    pub open spec fn magnitude(self) -> int {
        self.bits as int % 0x8000_0000
    }

    /// Whether the sign bit is set.
    pub open spec fn is_negative(self) -> bool {
        self.bits >= 0x8000_0000u32
    }

    /// Whether the pattern encodes "not a number".
    pub open spec fn spec_is_nan(self) -> bool {
        self.magnitude() > 0x7f80_0000
    }

    /// Whether the pattern encodes a number that is not infinite.
    pub open spec fn spec_is_finite(self) -> bool {
        self.magnitude() < 0x7f80_0000
    }

    /// The exponent field of the pattern.
    pub open spec fn exponent(self) -> int {
        self.magnitude() / 0x80_0000
    }

    /// The significand of a normal number: its fraction field under the
    /// implicit leading bit.
    pub open spec fn significand(self) -> int {
        0x80_0000 + self.magnitude() % 0x80_0000
    }

    /// The value of a normal number in units of 2^-40: the value itself is
    /// `significand * 2^(exponent - 150)`, negated under the sign bit. This
    /// is an integer for exponents from 110 on.
    pub open spec fn fixed40(self) -> int
        recommends
            110 <= self.exponent() < 255,
    {
        let size = doubled(self.significand(), (self.exponent() - 110) as nat);
        if self.is_negative() {
            -size
        } else {
            size
        }
    }

    /// An integer that orders numbers as binary32 comparison does: for `a` and
    /// `b` that are numbers, `a < b` exactly when `a.key() < b.key()`, and both
    /// zeros have key 0.
    pub open spec fn key(self) -> int {
        if self.is_negative() {
            -self.magnitude()
        } else {
            self.magnitude()
        }
    }

    /// Binary32 `>`: false whenever either side is not a number.
    pub open spec fn spec_exceeds(self, other: Score) -> bool {
        !self.is_nan() && !other.is_nan() && self.key() > other.key()
    }

    /// Binary32 `>=`: false whenever either side is not a number.
    pub open spec fn spec_at_least(self, other: Score) -> bool {
        !self.is_nan() && !other.is_nan() && self.key() >= other.key()
    }

    /// Wraps a bit pattern, as `to_bits` of a binary32 value gives it.
    pub fn from_bits(bits: u32) -> (r: Score)
        ensures
            r.bits == bits,
    {
        Score { bits }
    }

    /// The bit pattern, as `from_bits` of a binary32 value takes it.
    pub fn to_bits(self) -> (r: u32)
        ensures
            r == self.bits,
    {
        self.bits
    }

    /// Whether the pattern encodes "not a number".
    #[verifier::when_used_as_spec(spec_is_nan)]
    pub fn is_nan(self) -> (r: bool)
        ensures
            r == self.spec_is_nan(),
    {
        self.bits % SIGN_BIT > INFINITY_BITS
    }

    /// Whether the pattern encodes a number that is not infinite.
    #[verifier::when_used_as_spec(spec_is_finite)]
    pub fn is_finite(self) -> (r: bool)
        ensures
            r == self.spec_is_finite(),
    {
        self.bits % SIGN_BIT < INFINITY_BITS
    }

    /// The order key as a machine integer.
    pub fn order_key(self) -> (r: i64)
        ensures
            r == self.key(),
    {
        let magnitude: u32 = self.bits % SIGN_BIT;
        if self.bits >= SIGN_BIT {
            -(magnitude as i64)
        } else {
            magnitude as i64
        }
    }

    /// Binary32 `>`.
    #[verifier::when_used_as_spec(spec_exceeds)]
    pub fn exceeds(self, other: Score) -> (r: bool)
        ensures
            r == self.spec_exceeds(other),
    {
        !self.is_nan() && !other.is_nan() && self.order_key() > other.order_key()
    }

    /// Binary32 `>=`.
    #[verifier::when_used_as_spec(spec_at_least)]
    pub fn at_least(self, other: Score) -> (r: bool)
        ensures
            r == self.spec_at_least(other),
    {
        !self.is_nan() && !other.is_nan() && self.order_key() >= other.order_key()
    }
}

/// `n` doubled `times` times: `n * 2^times`.
pub open spec fn doubled(n: int, times: nat) -> int
    decreases times,
{
    if times == 0 {
        n
    } else {
        2 * doubled(n, (times - 1) as nat)
    }
}

/// Whether some entry of `scores` is a number.
pub open spec fn has_number(scores: Seq<Score>) -> bool {
    exists|j: int| 0 <= j < scores.len() && !(#[trigger] scores[j]).is_nan()
}

/// Whether `idx` is the winning class of `scores`: it holds a number, no
/// number in `scores` exceeds it, and every number before it is smaller.
pub open spec fn is_top_class(scores: Seq<Score>, idx: int) -> bool {
    &&& 0 <= idx < scores.len()
    &&& !scores[idx].is_nan()
    &&& forall|j: int|
        0 <= j < scores.len() && !(#[trigger] scores[j]).is_nan() ==> scores[j].key()
            <= scores[idx].key()
    &&& forall|j: int|
        0 <= j < idx && !(#[trigger] scores[j]).is_nan() ==> scores[j].key() < scores[idx].key()
}

/// Scans `scores` once and returns the winning class with its score: the
/// first index that holds the maximum. Entries that are not numbers never
/// win; without any number (an empty slice included) there is no winner.
pub fn top_class(scores: &[Score]) -> (r: Option<(usize, Score)>)
    ensures
        match r {
            Some((idx, best)) => is_top_class(scores@, idx as int) && best == scores@[idx as int],
            None => !has_number(scores@),
        },
{
    let mut best: Option<(usize, Score)> = None;
    let mut i: usize = 0;
    while i < scores.len()
        invariant
            i <= scores.len(),
            match best {
                Some((idx, s)) => idx < i && is_top_class(scores@.take(i as int), idx as int) && s
                    == scores@[idx as int],
                None => !has_number(scores@.take(i as int)),
            },
        decreases scores.len() - i,
    {
        let score = scores[i];
        let ghost before = scores@.take(i as int);
        let ghost after = scores@.take(i + 1);
        assert(forall|j: int| 0 <= j < i ==> before[j] == after[j]);
        assert(after[i as int] == score);
        match best {
            Some((_, s)) => {
                if score.exceeds(s) {
                    best = Some((i, score));
                }
            },
            None => {
                if !score.is_nan() {
                    best = Some((i, score));
                } else {
                    assert forall|j: int| 0 <= j < after.len() implies (#[trigger] after[j]).is_nan() by {
                        if j < i {
                            assert(before[j] == after[j]);
                        }
                    }
                }
            },
        }
        i += 1;
    }
    assert(scores@.take(scores.len() as int) =~= scores@);
    best
}

/// Numbers are totally ordered: of two numbers, one exceeds the other or
/// they compare equal, and never both.
pub proof fn numbers_are_ordered(a: Score, b: Score)
    requires
        !a.is_nan(),
        !b.is_nan(),
    ensures
        a.exceeds(b) || b.exceeds(a) || (a.at_least(b) && b.at_least(a)),
        !(a.exceeds(b) && b.at_least(a)),
        a.at_least(b) <==> !b.exceeds(a),
{
}

/// What is not a number compares with nothing.
pub proof fn nan_is_unordered(a: Score, b: Score)
    requires
        a.is_nan() || b.is_nan(),
    ensures
        !a.exceeds(b),
        !a.at_least(b),
        !b.exceeds(a),
        !b.at_least(a),
{
}

/// Exceeding is transitive.
pub proof fn exceeds_is_transitive(a: Score, b: Score, c: Score)
    requires
        a.exceeds(b),
        b.exceeds(c),
    ensures
        a.exceeds(c),
{
}

/// A slice has at most one winning class: ties go to the earliest index, so
/// two indices that both win are the same index.
pub proof fn top_class_is_unique(scores: Seq<Score>, a: int, b: int)
    requires
        is_top_class(scores, a),
        is_top_class(scores, b),
    ensures
        a == b,
{
    if a < b {
        assert(scores[a].key() < scores[b].key());
        assert(scores[b].key() <= scores[a].key());
    } else if b < a {
        assert(scores[b].key() < scores[a].key());
        assert(scores[a].key() <= scores[b].key());
    }
}

/// A winner exists exactly when some entry is a number.
pub proof fn top_class_exists(scores: Seq<Score>)
    ensures
        has_number(scores) <==> exists|idx: int| is_top_class(scores, idx),
    decreases scores.len(),
{
    if has_number(scores) {
        let last = scores.len() - 1;
        let front = scores.take(last);
        assert(forall|j: int| 0 <= j < last ==> front[j] == scores[j]);
        if has_number(front) {
            top_class_exists(front);
            let w = choose|idx: int| is_top_class(front, idx);
            assert(front[w] == scores[w]);
            if scores[last].spec_exceeds(scores[w]) {
                assert(is_top_class(scores, last)) by {
                    assert forall|j: int| 0 <= j < last && !(#[trigger] scores[j]).is_nan() implies scores[j].key() < scores[last].key() by {
                        assert(front[j] == scores[j]);
                    }
                }
            } else {
                assert(is_top_class(scores, w)) by {
                    assert forall|j: int| 0 <= j < scores.len() && !(#[trigger] scores[j]).is_nan() implies scores[j].key() <= scores[w].key() by {
                        if j < last {
                            assert(front[j] == scores[j]);
                        }
                    }
                    assert forall|j: int| 0 <= j < w && !(#[trigger] scores[j]).is_nan() implies scores[j].key() < scores[w].key() by {
                        assert(front[j] == scores[j]);
                    }
                }
            }
        } else {
            assert(!scores[last].is_nan()) by {
                let j = choose|j: int| 0 <= j < scores.len() && !(#[trigger] scores[j]).is_nan();
                if j < last {
                    assert(front[j] == scores[j]);
                }
            }
            assert(is_top_class(scores, last)) by {
                assert forall|j: int| 0 <= j < last implies (#[trigger] scores[j]).is_nan() by {
                    assert(front[j] == scores[j]);
                }
            }
        }
    } else {
        if exists|idx: int| is_top_class(scores, idx) {
            let w = choose|idx: int| is_top_class(scores, idx);
            assert(!scores[w].is_nan());
        }
    }
}

} // verus!
