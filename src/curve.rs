use vstd::prelude::*;
use crate::config::FanCurvePoint;

verus! {

/// The curve rises strictly, in temperature and in speed.
pub open spec fn curve_increasing(curve: Seq<FanCurvePoint>) -> bool {
    forall|i: int, j: int|
        0 <= i < j < curve.len() ==> #[trigger] curve[i].temp < #[trigger] curve[j].temp
            && curve[i].speed < curve[j].speed
}

/// The speed of the last point whose threshold does not exceed `temp`, or `0`
/// where there is none.
pub open spec fn curve_speed(curve: Seq<FanCurvePoint>, temp: int) -> u8
    decreases curve.len(),
{
    if curve.len() == 0 {
        0
    } else if curve.last().temp <= temp {
        curve.last().speed
    } else {
        curve_speed(curve.drop_last(), temp)
    }
}

/// Tells whether the curve is strictly increasing in temperature and speed.
pub fn is_increasing(curve: &Vec<FanCurvePoint>) -> (r: bool)
    ensures
        r == curve_increasing(curve@),
{
    let n = curve.len();
    if n == 0 {
        return true;
    }
    let mut k: usize = 1;
    while k < n
        invariant
            1 <= k <= n,
            n == curve@.len(),
            curve_increasing(curve@.subrange(0, k as int)),
        decreases n - k,
    {
        if !(curve[k - 1].temp < curve[k].temp && curve[k - 1].speed < curve[k].speed) {
            assert(!curve_increasing(curve@)) by {
                let i = k as int - 1;
                let j = k as int;
                assert(curve@[i].temp < curve@[j].temp ==> !(curve@[i].speed < curve@[j].speed));
            }
            return false;
        }
        assert(curve_increasing(curve@.subrange(0, k as int + 1))) by {
            let s = curve@.subrange(0, k as int + 1);
            let p = curve@.subrange(0, k as int);
            assert forall|i: int, j: int| 0 <= i < j < s.len() implies #[trigger] s[i].temp
                < #[trigger] s[j].temp && s[i].speed < s[j].speed by {
                if j < k {
                    assert(p[i] == s[i] && p[j] == s[j]);
                } else if i < k - 1 {
                    assert(p[i] == s[i] && p[k - 1] == s[k - 1]);
                    assert(p[i].temp < p[k - 1].temp);
                }
            }
        }
        k = k + 1;
    }
    assert(curve@.subrange(0, n as int) =~= curve@);
    true
}

/// Maps a smoothed temperature (millidegrees) to the curve's target speed.
pub fn evaluate_curve(curve: &Vec<FanCurvePoint>, temp: i32) -> (r: u8)
    ensures
        r == curve_speed(curve@, temp as int),
{
    let mut i: usize = curve.len();
    assert(curve@.subrange(0, i as int) =~= curve@);
    while i > 0
        invariant
            i <= curve@.len(),
            curve_speed(curve@, temp as int) == curve_speed(curve@.subrange(0, i as int), temp as int),
        decreases i,
    {
        assert(curve@.subrange(0, i as int).drop_last() =~= curve@.subrange(0, i as int - 1));
        if curve[i - 1].temp <= temp {
            return curve[i - 1].speed;
        }
        i = i - 1;
    }
    0
}

/// Below the first threshold the curve gives `0`.
pub proof fn lemma_curve_below_first(curve: Seq<FanCurvePoint>, temp: int)
    requires
        curve_increasing(curve),
        curve.len() > 0,
        temp < curve[0].temp,
    ensures
        curve_speed(curve, temp) == 0,
    decreases curve.len(),
{
    let p = curve.drop_last();
    if curve.len() > 1 {
        assert(curve[0].temp < curve[curve.len() - 1].temp);
        assert(p[0] == curve[0]);
        assert(curve_increasing(p)) by {
            assert forall|a: int, b: int| 0 <= a < b < p.len() implies #[trigger] p[a].temp
                < #[trigger] p[b].temp && p[a].speed < p[b].speed by {
                assert(p[a] == curve[a] && p[b] == curve[b]);
            }
        }
        lemma_curve_below_first(p, temp);
    } else {
        assert(curve_speed(p, temp) == 0);
    }
}

/// From the threshold of point `i` up to, but not including, the threshold of
/// the next point (or without bound after the last point), the curve gives the
/// speed of point `i`.
pub proof fn lemma_curve_step(curve: Seq<FanCurvePoint>, i: int, temp: int)
    requires
        curve_increasing(curve),
        0 <= i < curve.len(),
        curve[i].temp <= temp,
        i + 1 < curve.len() ==> temp < curve[i + 1].temp,
    ensures
        curve_speed(curve, temp) == curve[i].speed,
    decreases curve.len(),
{
    let n = curve.len();
    if i < n - 1 {
        let p = curve.drop_last();
        if i + 1 < n - 1 {
            assert(curve[i + 1].temp < curve[n - 1].temp);
        }
        assert(p[i] == curve[i]);
        assert(i + 1 < p.len() ==> p[i + 1] == curve[i + 1]);
        lemma_curve_step(p, i, temp);
    }
}

} // verus!
