//! The task runner's bookkeeping: how many times a target is tested, which
//! metrics are collected, and how repeated measurements are averaged.

use vstd::prelude::*;
use crate::text::{chars_of, owned, seq_eq};

verus! {

/// The number of rounds a task's options ask for (`repeat_count`, where it
/// is a non-negative integer), at least one.
pub fn parse_repeat_count(repeat_count: Option<u64>) -> (r: usize)
    ensures
        r == match repeat_count {
            Some(v) => if (v as usize) < 1 {
                1
            } else {
                v as usize
            },
            None => 1,
        },
{
    let v: usize = match repeat_count {
        Some(v) => {
            #[verifier::truncate]
            (v as usize)
        },
        None => 1,
    };
    if v < 1 {
        1
    } else {
        v
    }
}

/// The metric categories collected when the options name none: `basic`,
/// `page`, `resource`.
pub open spec fn default_metrics() -> Seq<Seq<char>> {
    seq!["basic"@, "page"@, "resource"@]
}

/// The metric categories a task's options ask for (the strings of
/// `metrics`, where it is a list), or the default ones.
pub fn parse_metrics(metrics: Option<Vec<String>>) -> (r: Vec<String>)
    ensures
        r@.map_values(|s: String| s@) == match metrics {
            Some(v) => v@.map_values(|s: String| s@),
            None => default_metrics(),
        },
{
    match metrics {
        Some(v) => v,
        None => {
            let v = vec![owned("basic"), owned("page"), owned("resource")];
            assert(v@.map_values(|s: String| s@) =~= default_metrics());
            v
        },
    }
}

/// A category is collected when it, or `all`, is asked for.
pub open spec fn enabled(metrics: Seq<Seq<char>>, category: Seq<char>) -> bool {
    exists|i: int| 0 <= i < metrics.len() && (#[trigger] metrics[i] == category || metrics[i] == "all"@)
}

/// Whether a metric category is collected.
pub fn metric_enabled(metrics: &Vec<String>, category: &str) -> (r: bool)
    ensures
        r == enabled(metrics@.map_values(|s: String| s@), category@),
{
    let ghost ms = metrics@.map_values(|s: String| s@);
    let c = chars_of(category);
    let all = chars_of("all");
    let mut i: usize = 0;
    while i < metrics.len()
        invariant
            i <= metrics.len(),
            ms == metrics@.map_values(|s: String| s@),
            c@ == category@,
            all@ == "all"@,
            forall|j: int| 0 <= j < i ==> !(#[trigger] ms[j] == category@ || ms[j] == "all"@),
        decreases metrics.len() - i,
    {
        let m = chars_of(metrics[i].as_str());
        assert(ms[i as int] == m@);
        if seq_eq(&m, &c) || seq_eq(&m, &all) {
            return true;
        }
        i = i + 1;
    }
    false
}

/// The sum of a list of integers.
pub open spec fn total(v: Seq<i32>) -> int
    decreases v.len(),
{
    if v.len() == 0 {
        0
    } else {
        total(v.drop_last()) + v.last()
    }
}

/// `a / b` rounded to the nearest integer, halves away from zero.
pub open spec fn rounded_quotient(a: int, b: int) -> int {
    if a >= 0 {
        (2 * a + b) / (2 * b)
    } else {
        -((2 * (-a) + b) / (2 * b))
    }
}

/// The mean of a list, rounded to the nearest integer with halves away from
/// zero; nothing for an empty list.
pub open spec fn mean_i32(v: Seq<i32>) -> Option<int> {
    if v.len() == 0 {
        None
    } else {
        Some(rounded_quotient(total(v), v.len() as int))
    }
}

proof fn lemma_total_bounds(v: Seq<i32>)
    ensures
        v.len() * (i32::MIN as int) <= total(v) <= v.len() * (i32::MAX as int),
    decreases v.len(),
{
    if v.len() > 0 {
        lemma_total_bounds(v.drop_last());
    }
}

proof fn lemma_rounded_in_range(a: int, b: int)
    requires
        b > 0,
        b * (i32::MIN as int) <= a <= b * (i32::MAX as int),
    ensures
        i32::MIN <= rounded_quotient(a, b) <= i32::MAX,
{
    if a >= 0 {
        assert((2 * a + b) / (2 * b) <= i32::MAX) by (nonlinear_arith)
            requires
                b > 0,
                0 <= a <= b * (i32::MAX as int),
        ;
        assert((2 * a + b) / (2 * b) >= 0) by (nonlinear_arith)
            requires
                b > 0,
                0 <= a,
        ;
    } else {
        assert((2 * (-a) + b) / (2 * b) <= -(i32::MIN as int)) by (nonlinear_arith)
            requires
                b > 0,
                0 < -a <= b * (-(i32::MIN as int)),
        ;
        assert((2 * (-a) + b) / (2 * b) >= 0) by (nonlinear_arith)
            requires
                b > 0,
                0 < -a,
        ;
    }
}

/// The rounded mean of repeated integer measurements (such as resource
/// counts over several rounds).
pub fn avg_i32(v: &Vec<i32>) -> (r: Option<i32>)
    ensures
        match mean_i32(v@) {
            Some(m) => r == Some(m as i32),
            None => r is None,
        },
{
    if v.len() == 0 {
        return None;
    }
    let mut sum: i128 = 0;
    let mut i: usize = 0;
    while i < v.len()
        invariant
            i <= v.len(),
            sum == total(v@.take(i as int)),
        decreases v.len() - i,
    {
        proof {
            lemma_total_bounds(v@.take(i as int));
            assert(v@.take(i + 1).drop_last() =~= v@.take(i as int));
            assert(i * (i32::MAX as int) <= 0x1_0000_0000_0000_0000 * (i32::MAX as int)) by (nonlinear_arith)
                requires
                    i <= 0x1_0000_0000_0000_0000int,
            ;
            assert(i * (i32::MIN as int) >= 0x1_0000_0000_0000_0000 * (i32::MIN as int)) by (nonlinear_arith)
                requires
                    i <= 0x1_0000_0000_0000_0000int,
            ;
        }
        sum = sum + v[i] as i128;
        i = i + 1;
    }
    assert(v@.take(v.len() as int) =~= v@);
    proof {
        lemma_total_bounds(v@);
        lemma_rounded_in_range(sum as int, v.len() as int);
        assert(v.len() * (i32::MAX as int) <= 0x1_0000_0000_0000_0000 * (i32::MAX as int)) by (nonlinear_arith)
            requires
                v.len() <= 0x1_0000_0000_0000_0000int,
        ;
        assert(v.len() * (i32::MIN as int) >= 0x1_0000_0000_0000_0000 * (i32::MIN as int)) by (nonlinear_arith)
            requires
                v.len() <= 0x1_0000_0000_0000_0000int,
        ;
    }
    let n = v.len() as i128;
    let q: i128 = if sum >= 0 {
        (2 * sum + n) / (2 * n)
    } else {
        -((2 * (-sum) + n) / (2 * n))
    };
    Some(q as i32)
}

/// The share of rounds in which a step succeeded, as a whole percentage
/// rounded down: `ok * 100 / rounds`, and 0 when there were no rounds.
pub fn success_percent(ok: usize, rounds: usize) -> (r: i32)
    requires
        ok <= rounds,
    ensures
        r == if rounds > 0 {
            (ok as int) * 100 / (rounds as int)
        } else {
            0
        },
{
    if rounds == 0 {
        return 0;
    }
    let ok128 = ok as u128;
    let n = rounds as u128;
    assert((ok128 as int) * 100 / (n as int) <= 100) by (nonlinear_arith)
        requires
            ok128 <= n,
            n > 0,
    ;
    ((ok128 * 100) / n) as i32
}

} // verus!
