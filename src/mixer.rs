//! The mixer's per-tick computation: each output sample is the equal-weight
//! average of one sample from every input that still has one.
use vstd::prelude::*;

verus! {

/// Output samples per mixer tick.
pub const MIX_CHUNK_SIZE: usize = 64;

/// The sample contents of the inputs.
pub open spec fn views(inputs: Seq<Vec<i32>>) -> Seq<Seq<i32>> {
    Seq::new(inputs.len(), |i: int| inputs[i]@)
}

/// How many of the first `n` inputs have a sample at position `j`.
pub open spec fn contributors(inputs: Seq<Seq<i32>>, j: int, n: int) -> int
    decreases n,
{
    if n <= 0 {
        0
    } else {
        contributors(inputs, j, n - 1) + if j < inputs[n - 1].len() {
            1int
        } else {
            0int
        }
    }
}

/// The sum of the samples at position `j` of the first `n` inputs that have
/// one.
pub open spec fn contribution_sum(inputs: Seq<Seq<i32>>, j: int, n: int) -> int
    decreases n,
{
    if n <= 0 {
        0
    } else {
        contribution_sum(inputs, j, n - 1) + if j < inputs[n - 1].len() {
            inputs[n - 1][j] as int
        } else {
            0int
        }
    }
}

/// `a / k` rounded toward zero.
pub open spec fn div_toward_zero(a: int, k: int) -> int {
    if a >= 0 {
        a / k
    } else {
        -((-a) / k)
    }
}

/// `v` clamped into the sample range `[-1, +1)`.
pub open spec fn clamp_sample(v: int) -> i32 {
    if v < i32::MIN {
        i32::MIN
    } else if v > i32::MAX {
        i32::MAX
    } else {
        v as i32
    }
}

/// Output sample `j` of a tick: the average of the contributing inputs'
/// samples, rounded toward zero and clamped, or 0 when none contributes.
pub open spec fn mixed_sample(inputs: Seq<Seq<i32>>, j: int) -> i32 {
    let k = contributors(inputs, j, inputs.len() as int);
    if k == 0 {
        0
    } else {
        clamp_sample(div_toward_zero(contribution_sum(inputs, j, inputs.len() as int), k))
    }
}

proof fn lemma_contribution_bounds(inputs: Seq<Seq<i32>>, j: int, n: int)
    requires
        0 <= n <= inputs.len(),
    ensures
        0 <= contributors(inputs, j, n) <= n,
        contributors(inputs, j, n) * (i32::MIN as int) <= contribution_sum(inputs, j, n)
            <= contributors(inputs, j, n) * (i32::MAX as int),
    decreases n,
{
    if n > 0 {
        lemma_contribution_bounds(inputs, j, n - 1);
    }
}

/// Mixes one tick of `chunk` output samples. `inputs[i]` holds the samples
/// popped from input `i` for this tick, in order: input `i` contributes to
/// output sample `j` when it had a sample at step `j`. The samples are
/// appended to `out`.
pub fn mix_chunk(inputs: &Vec<Vec<i32>>, chunk: usize, out: &mut Vec<i32>)
    ensures
        final(out)@.len() == old(out)@.len() + chunk,
        final(out)@.take(old(out)@.len() as int) == old(out)@,
        forall|j: int| 0 <= j < chunk ==> #[trigger] final(out)@[old(out)@.len() + j] == mixed_sample(
            views(inputs@),
            j,
        ),
{
    let ghost ins = views(inputs@);
    let ghost base = out@;
    let mut j: usize = 0;
    while j < chunk
        invariant
            0 <= j <= chunk,
            ins == views(inputs@),
            out@.len() == base.len() + j,
            out@.take(base.len() as int) == base,
            forall|g: int| 0 <= g < j ==> #[trigger] out@[base.len() + g] == mixed_sample(ins, g),
        decreases chunk - j,
    {
        let mut sum: i128 = 0;
        let mut count: i128 = 0;
        let mut i: usize = 0;
        while i < inputs.len()
            invariant
                0 <= i <= inputs@.len(),
                ins == views(inputs@),
                count == contributors(ins, j as int, i as int),
                sum == contribution_sum(ins, j as int, i as int),
                0 <= count <= i,
                count * (i32::MIN as int) <= sum <= count * (i32::MAX as int),
            decreases inputs@.len() - i,
        {
            proof {
                lemma_contribution_bounds(ins, j as int, (i + 1) as int);
                assert(ins[i as int] == inputs@[i as int]@);
            }
            if j < inputs[i].len() {
                sum = sum + inputs[i][j] as i128;
                count = count + 1;
            }
            i = i + 1;
        }
        let v: i32 = if count == 0 {
            0
        } else {
            proof {
                assert(count * (i32::MIN as int) >= -0x1_0000_0000_0000_0000 * 0x8000_0000)
                    by (nonlinear_arith)
                    requires
                        0 <= count <= usize::MAX,
                ;
                assert(count * (i32::MAX as int) <= 0x1_0000_0000_0000_0000 * 0x8000_0000)
                    by (nonlinear_arith)
                    requires
                        0 <= count <= usize::MAX,
                ;
            }
            let avg = sum / count;
            if avg < i32::MIN as i128 {
                i32::MIN
            } else if avg > i32::MAX as i128 {
                i32::MAX
            } else {
                avg as i32
            }
        };
        out.push(v);
        proof {
            assert(out@.take(base.len() as int) =~= base);
        }
        j = j + 1;
    }
}

/// Mixer gain law: when every input holds the same sample `a` at position
/// `j`, the output sample is `a`, whatever the number of inputs (not `k·a`).
pub proof fn lemma_equal_inputs_keep_amplitude(inputs: Seq<Seq<i32>>, j: int, a: i32)
    requires
        inputs.len() > 0,
        forall|i: int| 0 <= i < inputs.len() ==> j < #[trigger] inputs[i].len() && inputs[i][j] == a,
        0 <= j,
    ensures
        mixed_sample(inputs, j) == a,
{
    let n = inputs.len() as int;
    lemma_all_contribute(inputs, j, a, n);
    if a >= 0 {
        vstd::arithmetic::div_mod::lemma_div_by_multiple(a as int, n);
        assert(n * (a as int) == (a as int) * n) by (nonlinear_arith);
    } else {
        vstd::arithmetic::div_mod::lemma_div_by_multiple(-(a as int), n);
        assert(-(n * (a as int)) == (-(a as int)) * n) by (nonlinear_arith);
    }
}

proof fn lemma_all_contribute(inputs: Seq<Seq<i32>>, j: int, a: i32, n: int)
    requires
        0 <= n <= inputs.len(),
        0 <= j,
        forall|i: int| 0 <= i < inputs.len() ==> j < #[trigger] inputs[i].len() && inputs[i][j] == a,
    ensures
        contributors(inputs, j, n) == n,
        contribution_sum(inputs, j, n) == n * (a as int),
    decreases n,
{
    if n > 0 {
        lemma_all_contribute(inputs, j, a, n - 1);
        assert(j < inputs[n - 1].len() && inputs[n - 1][j] == a);
        assert(contribution_sum(inputs, j, n) == contribution_sum(inputs, j, n - 1) + a as int);
        assert(n * (a as int) == (n - 1) * (a as int) + (a as int)) by (nonlinear_arith);
    } else {
        assert(n * (a as int) == 0) by (nonlinear_arith)
            requires
                n == 0,
        ;
    }
}

} // verus!
