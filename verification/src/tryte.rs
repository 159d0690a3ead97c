//! A six-trit word and its decoding to a signed integer.

use vstd::prelude::*;

use crate::trit::Trit;

verus! {

/// Three to the power `n`.
pub open spec fn pow3(n: nat) -> int
    decreases n,
{
    if n == 0 {
        1
    } else {
        3 * pow3((n - 1) as nat)
    }
}

/// The integer a sequence of trits stands for, most-significant trit first:
/// the weighted sum of `3^position * digit`, where position 0 is the last
/// element of the sequence.
pub open spec fn decode(s: Seq<Trit>) -> int
    decreases s.len(),
{
    if s.len() == 0 {
        0
    } else {
        3 * decode(s.drop_last()) + s.last().value()
    }
}

/// A decoded trit sequence is bounded by half the span of its base-3 range:
/// `|decode(s)| <= (3^len - 1) / 2`, stated doubled to stay in integers.
pub proof fn lemma_decode_bound(s: Seq<Trit>)
    ensures
        -(pow3(s.len()) - 1) <= 2 * decode(s) <= pow3(s.len()) - 1,
    decreases s.len(),
{
    if s.len() > 0 {
        lemma_decode_bound(s.drop_last());
    }
}

/// An ordered word of exactly six trits, most-significant first. The fixed
/// size is the type's invariant: no runtime validation is needed.
pub struct Tryte([Trit; 6]);

impl View for Tryte {
    type V = Seq<Trit>;

    closed spec fn view(&self) -> Seq<Trit> {
        self.0@
    }
}

impl Tryte {
    /// Builds a tryte from six trits, most-significant first.
    pub fn new(trits: [Trit; 6]) -> (r: Self)
        ensures
            r@ == trits@,
    {
        Tryte(trits)
    }

    /// Decodes the word to the signed integer it stands for: the base-3
    /// positional sum of its digits. The result lies in -364..=364, which a
    /// 16-bit signed integer holds without wraparound.
    pub fn to_i16(&self) -> (r: i16)
        ensures
            r as int == decode(self@),
            -364 <= r <= 364,
    {
        proof {
            assert(pow3(0) == 1);
            assert(pow3(1) == 3);
            assert(pow3(2) == 9);
            assert(pow3(3) == 27);
            assert(pow3(4) == 81);
            assert(pow3(5) == 243);
            assert(pow3(6) == 729);
        }
        let mut total: i16 = 0;
        let mut i: usize = 0;
        while i < 6
            invariant
                i <= 6,
                self@.len() == 6,
                total as int == decode(self@.take(i as int)),
                pow3(5) == 243 && pow3(6) == 729,
            decreases 6 - i,
        {
            proof {
                lemma_decode_bound(self@.take(i as int));
                lemma_pow3_increases(i as nat, 5);
                assert(self@.take(i as int + 1).drop_last() =~= self@.take(i as int));
            }
            let digit: i16 = match self.0[i] {
                Trit::Pos => 1,
                Trit::Neu => 0,
                Trit::Neg => -1,
            };
            total = 3 * total + digit;
            i = i + 1;
        }
        proof {
            assert(self@.take(6) =~= self@);
            lemma_decode_bound(self@);
        }
        total
    }
}

/// `pow3` does not decrease as its exponent grows.
proof fn lemma_pow3_increases(n: nat, m: nat)
    requires
        n <= m,
    ensures
        pow3(n) <= pow3(m),
    decreases m,
{
    if n < m {
        lemma_pow3_increases(n, (m - 1) as nat);
        lemma_pow3_positive((m - 1) as nat);
    }
}

/// `pow3` is positive.
proof fn lemma_pow3_positive(n: nat)
    ensures
        pow3(n) >= 1,
    decreases n,
{
    if n > 0 {
        lemma_pow3_positive((n - 1) as nat);
    }
}

} // verus!
