//! Downmixing: averaging the channels of each interleaved frame into one
//! mono sample at the native rate. One frame in, one sample out; a trailing
//! partial frame is averaged over the channels it actually holds.

use vstd::prelude::*;

use vstd::arithmetic::div_mod::{
    lemma_div_is_ordered, lemma_div_multiples_vanish, lemma_div_multiples_vanish_fancy,
    lemma_div_pos_is_pos,
};
use vstd::arithmetic::mul::lemma_mul_is_commutative;

use crate::session::samples_bounded;
use crate::SAMPLE_ABS_MAX;

verus! {

/// Sum of a sequence of samples, as a mathematical integer.
pub open spec fn seq_sum(s: Seq<i64>) -> int
    decreases s.len(),
{
    if s.len() == 0 {
        0
    } else {
        s[0] + seq_sum(s.drop_first())
    }
}

/// Division that truncates toward zero, as executable integer division does.
pub open spec fn div_trunc(a: int, b: int) -> int {
    if a >= 0 {
        a / b
    } else {
        -((-a) / b)
    }
}

/// Number of frames a buffer of `len` interleaved samples holds at `ch`
/// channels per frame, counting a trailing partial frame.
pub open spec fn frame_count(len: int, ch: int) -> int {
    (len + ch - 1) / ch
}

/// The mono value of frame `i`: the truncating average of the samples the
/// frame holds (`ch` of them, fewer for a trailing partial frame).
pub open spec fn frame_average(s: Seq<i64>, ch: int, i: int) -> int {
    let lo = i * ch;
    let hi = if lo + ch <= s.len() {
        lo + ch
    } else {
        s.len() as int
    };
    div_trunc(seq_sum(s.subrange(lo, hi)), hi - lo)
}

/// The downmix of interleaved samples `s` at `ch` channels per frame: one
/// truncating frame average per frame.
pub open spec fn spec_downmix(s: Seq<i64>, ch: int) -> Seq<int> {
    Seq::new(frame_count(s.len() as int, ch) as nat, |i: int| frame_average(s, ch, i))
}

/// Appending one sample adds its value to the sum.
proof fn lemma_seq_sum_push(s: Seq<i64>, x: i64)
    ensures
        seq_sum(s.push(x)) == seq_sum(s) + x,
    decreases s.len(),
{
    if s.len() == 0 {
        assert(s.push(x).drop_first() =~= Seq::<i64>::empty());
        assert(s.push(x)[0] == x);
        assert(seq_sum(s.push(x).drop_first()) == 0);
    } else {
        assert(s.push(x).drop_first() =~= s.drop_first().push(x));
        assert(s.push(x)[0] == s[0]);
        lemma_seq_sum_push(s.drop_first(), x);
        assert(seq_sum(s.push(x).drop_first()) == seq_sum(s.drop_first()) + x);
    }
}

/// A sum of samples that all equal `v` is the count times `v`.
proof fn lemma_seq_sum_constant(s: Seq<i64>, v: i64)
    requires
        forall|i: int| 0 <= i < s.len() ==> s[i] == v,
    ensures
        seq_sum(s) == s.len() * v,
    decreases s.len(),
{
    if s.len() == 0 {
    } else {
        lemma_seq_sum_constant(s.drop_first(), v);
        assert(s.len() * v == (s.len() - 1) * v + v) by (nonlinear_arith);
    }
}

/// A truncating average of values with magnitude at most `m` has magnitude
/// at most `m` itself.
proof fn lemma_avg_bounded(sum: int, n: int, m: int)
    requires
        1 <= n,
        0 <= m,
        -(n * m) <= sum <= n * m,
    ensures
        -m <= div_trunc(sum, n) <= m,
{
    lemma_div_multiples_vanish(m, n);
    lemma_mul_is_commutative(n, m);
    if sum >= 0 {
        lemma_div_is_ordered(sum, n * m, n);
        lemma_div_pos_is_pos(sum, n);
    } else {
        lemma_div_is_ordered(-sum, n * m, n);
        lemma_div_pos_is_pos(-sum, n);
    }
}

/// Collapses interleaved samples at `channels` per frame into one mono
/// sample per frame by truncating average.
pub fn downmix(samples: &Vec<i64>, channels: u16) -> (out: Vec<i64>)
    requires
        channels >= 1,
        samples_bounded(samples@),
    ensures
        out@.len() == frame_count(samples@.len() as int, channels as int),
        forall|i: int|
            0 <= i < out@.len() ==> out@[i] == frame_average(samples@, channels as int, i),
        out@.map_values(|v: i64| v as int) =~= spec_downmix(samples@, channels as int),
        samples_bounded(out@),
{
    let ch: usize = channels as usize;
    let len: usize = samples.len();
    let mut out: Vec<i64> = Vec::new();
    let mut pos: usize = 0;
    proof {
        assert(0 == 0 * (ch as int)) by (nonlinear_arith);
        if len == 0 {
            lemma_div_multiples_vanish_fancy(0, ch as int - 1, ch as int);
            assert((ch as int) * 0 + (ch as int - 1) == 0 + ch - 1);
            assert(frame_count(0, ch as int) == 0);
        }
    }
    while pos < len
        invariant
            1 <= ch <= 0xffff,
            ch == channels as int,
            len == samples@.len(),
            pos <= len,
            samples_bounded(samples@),
            pos < len ==> pos == out@.len() * (ch as int),
            pos == len ==> out@.len() == frame_count(len as int, ch as int),
            forall|i: int|
                0 <= i < out@.len() ==> out@[i] == frame_average(samples@, ch as int, i),
            samples_bounded(out@),
        decreases len - pos,
    {
        let full: bool = len - pos >= ch;
        let hi: usize = if full {
            pos + ch
        } else {
            len
        };
        let flen: usize = hi - pos;
        let mut sum: i64 = 0;
        let mut j: usize = pos;
        while j < hi
            invariant
                pos <= j <= hi <= len,
                len == samples@.len(),
                hi - pos <= 0xffff,
                samples_bounded(samples@),
                sum == seq_sum(samples@.subrange(pos as int, j as int)),
                -((j - pos) * SAMPLE_ABS_MAX) <= sum <= (j - pos) * SAMPLE_ABS_MAX,
            decreases hi - j,
        {
            proof {
                assert(samples@.subrange(pos as int, j as int).push(samples@[j as int])
                    =~= samples@.subrange(pos as int, j + 1));
                lemma_seq_sum_push(samples@.subrange(pos as int, j as int), samples@[j as int]);
            }
            sum = sum + samples[j];
            j = j + 1;
        }
        let avg: i64 = if sum >= 0 {
            ((sum as u64) / (flen as u64)) as i64
        } else {
            -((((-sum) as u64) / (flen as u64)) as i64)
        };
        proof {
            lemma_avg_bounded(sum as int, flen as int, SAMPLE_ABS_MAX as int);
            if sum >= 0 {
                lemma_div_pos_is_pos(sum as int, flen as int);
                lemma_div_is_ordered(sum as int, flen as int * SAMPLE_ABS_MAX, flen as int);
            } else {
                lemma_div_pos_is_pos(-(sum as int), flen as int);
                lemma_div_is_ordered(-(sum as int), flen as int * SAMPLE_ABS_MAX, flen as int);
            }
            assert(avg == div_trunc(sum as int, flen as int));
            let i = out@.len() as int;
            assert(i * (ch as int) == pos as int);
            assert(avg == frame_average(samples@, ch as int, i));
        }
        let ghost prev = out@;
        let ghost prev_pos = pos as int;
        out.push(avg);
        pos = hi;
        proof {
            let k = prev.len() as int;
            assert(forall|i: int| 0 <= i < k ==> out@[i] == #[trigger] prev[i]);
            if full {
                assert(pos as int == (k + 1) * (ch as int)) by (nonlinear_arith)
                    requires
                        prev_pos == k * (ch as int),
                        pos == prev_pos + ch as int,
                ;
                if pos == len {
                    assert((len + ch - 1) as int == (ch as int) * (k + 1) + (ch as int - 1))
                        by (nonlinear_arith)
                        requires
                            len as int == (k + 1) * (ch as int),
                    ;
                    lemma_div_multiples_vanish_fancy(k + 1, ch as int - 1, ch as int);
                }
            } else {
                let r = len as int - prev_pos;
                assert(0 < r < ch as int);
                assert((len + ch - 1) as int == (ch as int) * (k + 1) + (r - 1))
                    by (nonlinear_arith)
                    requires
                        prev_pos == k * (ch as int),
                        r == len as int - prev_pos,
                ;
                lemma_div_multiples_vanish_fancy(k + 1, r - 1, ch as int);
            }
        }
    }
    proof {
        if len == 0 {
            assert(frame_count(0, ch as int) == 0) by {
                lemma_div_multiples_vanish_fancy(0, ch as int - 1, ch as int);
            }
        }
        assert(out@.map_values(|v: i64| v as int) =~= spec_downmix(samples@, ch as int));
    }
    out
}

/// Downmixing a one-channel buffer is the identity: every frame holds one
/// sample and its average is that sample.
pub proof fn lemma_downmix_identity(s: Seq<i64>)
    ensures
        frame_count(s.len() as int, 1) == s.len(),
        forall|i: int| 0 <= i < s.len() ==> frame_average(s, 1, i) == s[i],
{
    assert(frame_count(s.len() as int, 1) == s.len()) by {
        lemma_div_multiples_vanish_fancy(s.len() as int, 0, 1);
        assert(1 * s.len() as int + 0 == s.len() as int + 1 - 1);
    }
    assert forall|i: int| 0 <= i < s.len() implies frame_average(s, 1, i) == s[i] by {
        assert(i * 1 == i);
        let sub = s.subrange(i, i + 1);
        assert(sub.drop_first() =~= Seq::<i64>::empty());
        assert(seq_sum(sub.drop_first()) == 0);
        assert(sub[0] == s[i]);
        assert(seq_sum(sub) == s[i]);
        assert(div_trunc(s[i] as int, 1) == s[i]) by {
            if s[i] >= 0 {
                lemma_div_multiples_vanish(s[i] as int, 1);
            } else {
                lemma_div_multiples_vanish(-(s[i] as int), 1);
            }
        }
    }
}

/// Downmixing frames whose channels all hold one constant value `v` yields
/// `v` for every output frame, full or partial: the truncating average of
/// any number of copies of `v` is exactly `v`.
pub proof fn lemma_downmix_constant(s: Seq<i64>, ch: int, v: i64)
    requires
        1 <= ch,
        forall|i: int| 0 <= i < s.len() ==> s[i] == v,
    ensures
        forall|i: int|
            0 <= i < frame_count(s.len() as int, ch) ==> #[trigger] frame_average(s, ch, i) == v,
{
    assert forall|i: int|
        0 <= i < frame_count(s.len() as int, ch) implies #[trigger] frame_average(s, ch, i)
        == v by {
        let lo = i * ch;
        let hi = if lo + ch <= s.len() {
            lo + ch
        } else {
            s.len() as int
        };
        assert(0 <= lo) by (nonlinear_arith)
            requires
                0 <= i,
                1 <= ch,
                lo == i * ch,
        ;
        assert(lo < s.len()) by {
            let fc = frame_count(s.len() as int, ch);
            assert((s.len() + ch - 1) as int / ch == fc);
            assert(i <= fc - 1);
            assert(lo <= (fc - 1) * ch) by (nonlinear_arith)
                requires
                    i <= fc - 1,
                    1 <= ch,
                    lo == i * ch,
            ;
            if (fc - 1) * ch >= s.len() {
                assert(((s.len() + ch - 1) as int) < fc * ch) by (nonlinear_arith)
                    requires
                        (fc - 1) * ch >= s.len() as int,
                        1 <= ch,
                ;
                assert(fc < fc) by {
                    assert((s.len() + ch - 1) as int / ch < fc) by {
                        vstd::arithmetic::div_mod::lemma_multiply_divide_lt(
                            (s.len() + ch - 1) as int,
                            ch,
                            fc,
                        );
                    }
                }
            }
        }
        let sub = s.subrange(lo, hi);
        let m = hi - lo;
        assert(1 <= m <= ch);
        lemma_seq_sum_constant(sub, v);
        assert(seq_sum(sub) == m * v);
        assert(div_trunc(m * v, m) == v) by {
            if v >= 0 {
                assert(m * v >= 0) by (nonlinear_arith)
                    requires
                        m >= 1,
                        v >= 0,
                ;
                lemma_div_multiples_vanish(v as int, m);
            } else {
                assert(m * v < 0) by (nonlinear_arith)
                    requires
                        m >= 1,
                        v < 0,
                ;
                assert(-(m * v) == m * (-(v as int))) by (nonlinear_arith);
                lemma_div_multiples_vanish(-(v as int), m);
            }
        }
    }
}

} // verus!
