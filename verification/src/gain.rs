use vstd::prelude::*;
use vstd::arithmetic::div_mod::{lemma_div_is_ordered, lemma_div_multiples_vanish};
use vstd::arithmetic::mul::lemma_mul_inequality;

verus! {

/// Largest magnitude of a full-scale sample: the positive bound of a signed
/// 16-bit pulse-code value.
pub const FULL_SCALE: i16 = 32767;

/// Sum of a sequence of raw channel samples, as a mathematical integer.
pub open spec fn seq_sum(s: Seq<i32>) -> int
    decreases s.len(),
{
    if s.len() == 0 {
        0
    } else {
        s.first() + seq_sum(s.drop_first())
    }
}

/// Division that truncates toward zero, as the hardware samples' integer
/// division does; meaningful for a positive divisor.
pub open spec fn div_trunc(a: int, b: int) -> int {
    if a >= 0 {
        a / b
    } else {
        -((-a) / b)
    }
}

/// Mono downmix of one hardware frame: the arithmetic mean of its channels.
pub open spec fn downmix(frame: Seq<i32>) -> int {
    div_trunc(seq_sum(frame), frame.len() as int)
}

/// Linear gain: a boost percentage applied to a mono sample.
pub open spec fn boost_scale(v: int, gain_percent: int) -> int {
    div_trunc(v * gain_percent, 100)
}

/// Clamp to the full-scale range `[-32767, 32767]`.
pub open spec fn clamp_full_scale(v: int) -> int {
    if v < -(FULL_SCALE as int) {
        -(FULL_SCALE as int)
    } else if v > FULL_SCALE as int {
        FULL_SCALE as int
    } else {
        v
    }
}

/// What one frame becomes: downmix to mono, apply the gain, clamp.
pub open spec fn processed(frame: Seq<i32>, gain_percent: int) -> int {
    clamp_full_scale(boost_scale(downmix(frame), gain_percent))
}

/// The same value carried as the 16-bit sample that the buffer stores.
pub open spec fn processed_sample(frame: Seq<i32>, gain_percent: int) -> i16 {
    processed(frame, gain_percent) as i16
}

proof fn lemma_seq_sum_push(s: Seq<i32>, x: i32)
    ensures
        seq_sum(s.push(x)) == seq_sum(s) + x,
    decreases s.len(),
{
    if s.len() == 0 {
        reveal_with_fuel(seq_sum, 2);
        assert(s.push(x).first() == x);
        assert(s.push(x).drop_first() =~= Seq::<i32>::empty());
    } else {
        assert(s.push(x).first() == s.first());
        assert(s.push(x).drop_first() =~= s.drop_first().push(x));
        lemma_seq_sum_push(s.drop_first(), x);
    }
}

proof fn lemma_seq_sum_constant(s: Seq<i32>, c: i32)
    requires
        forall|i: int| 0 <= i < s.len() ==> s[i] == c,
    ensures
        seq_sum(s) == s.len() as int * c,
    decreases s.len(),
{
    if s.len() == 0 {
    } else {
        lemma_seq_sum_constant(s.drop_first(), c);
        assert(s.first() == c);
        assert(s.len() as int * c == c + (s.len() as int - 1) * c) by (nonlinear_arith);
    }
}

/// Mono pass-through: a frame whose channels all carry the same value
/// downmixes, before any gain is applied, to exactly that value.
pub proof fn lemma_downmix_uniform(frame: Seq<i32>, c: i32)
    requires
        frame.len() >= 1,
        forall|i: int| 0 <= i < frame.len() ==> frame[i] == c,
    ensures
        downmix(frame) == c as int,
{
    lemma_seq_sum_constant(frame, c);
    let n = frame.len() as int;
    if c >= 0 {
        lemma_div_multiples_vanish(c as int, n);
        assert(n * c == n * (c as int)) by (nonlinear_arith);
    } else {
        lemma_div_multiples_vanish(-(c as int), n);
        assert(-(n * c) == n * (-(c as int))) by (nonlinear_arith);
    }
}

/// The clamp invariant, stated on its own: whatever a frame holds and
/// whatever the gain, the processed value lies in the full-scale range.
pub proof fn lemma_processed_in_range(frame: Seq<i32>, gain_percent: int)
    ensures
        -(FULL_SCALE as int) <= processed(frame, gain_percent) <= FULL_SCALE as int,
{
}

/// Downmix one hardware frame to mono, apply the boost percentage as a
/// linear gain, and clamp the result to the full-scale range.  Pure: no
/// allocation, no side effect, safe on every incoming frame.
///
/// A frame must hold at least one channel; the hardware layer guarantees a
/// channel count of at least 1, and a caller must reject an empty frame
/// before coming here.
pub fn process_frame(frame: &Vec<i32>, gain_percent: u32) -> (s: i16)
    requires
        1 <= frame@.len() <= 65535,
    ensures
        s == processed_sample(frame@, gain_percent as int),
        s as int == processed(frame@, gain_percent as int),
        -(FULL_SCALE as int) <= s as int <= FULL_SCALE as int,
{
    let n: usize = frame.len();
    let mut sum: i64 = 0;
    let mut i: usize = 0;
    while i < n
        invariant
            1 <= n <= 65535,
            n == frame@.len(),
            0 <= i <= n,
            sum == seq_sum(frame@.take(i as int)),
            -((i as int) * 0x8000_0000) <= sum as int <= (i as int) * 0x8000_0000,
        decreases n - i,
    {
        let x: i32 = frame[i];
        proof {
            lemma_seq_sum_push(frame@.take(i as int), x);
            assert(frame@.take(i as int + 1) =~= frame@.take(i as int).push(frame@[i as int]));
        }
        sum = sum + x as i64;
        i = i + 1;
    }
    proof {
        assert(frame@.take(n as int) =~= frame@);
    }
    let neg: bool = sum < 0;
    let mag: u64 = if neg {
        (-sum) as u64
    } else {
        sum as u64
    };
    let mean: u64 = mag / (n as u64);
    proof {
        lemma_div_is_ordered(mag as int, (n as int) * 0x8000_0000, n as int);
        lemma_div_multiples_vanish(0x8000_0000, n as int);
    }
    proof {
        lemma_mul_inequality(mean as int, 0x8000_0000, gain_percent as int);
    }
    let scaled: u64 = (mean * (gain_percent as u64)) / 100;
    let clamped: u64 = if scaled > 32767 {
        32767
    } else {
        scaled
    };
    let s: i16 = if neg {
        -(clamped as i16)
    } else {
        clamped as i16
    };
    proof {
        let sv = seq_sum(frame@);
        let g = gain_percent as int;
        if neg {
            assert(mag as int == -sv);
            assert(downmix(frame@) == -(mean as int));
            assert((-(mean as int)) * g == -((mean as int) * g)) by (nonlinear_arith);
            if mean as int * g == 0 {
                assert(boost_scale(downmix(frame@), g) == 0);
            } else {
                assert(boost_scale(downmix(frame@), g) == -(scaled as int));
            }
        } else {
            assert(mag as int == sv);
            assert(downmix(frame@) == mean as int);
            assert(boost_scale(downmix(frame@), g) == scaled as int);
        }
        assert(s as int == processed(frame@, g));
    }
    s
}

} // verus!
