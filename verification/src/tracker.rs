//! The watermark rule: is a sampled count far enough above the last count that
//! was announced?

use vstd::prelude::*;

verus! {

/// The relative increase, in percent of the watermark, that a sample has to
/// exceed by default.
pub const DEFAULT_MARGIN_PERCENT: u32 = 1;

/// What the tracker decides about one sample.
#[derive(Clone, Copy, Debug, PartialEq, Eq, Structural)]
pub enum Verdict {
    /// The sample clears the margin: it is announced and becomes the watermark.
    Accepted,
    /// The sample does not clear the margin: nothing happens.
    Rejected,
}

/// `sample` is strictly greater than `watermark` raised by `margin_percent`
/// percent: `sample > watermark * (1 + margin_percent / 100)`, in exact
/// arithmetic. With a margin of one percent that is `sample > watermark * 1.01`.
pub open spec fn clears_margin(sample: nat, watermark: nat, margin_percent: nat) -> bool {
    sample * 100 > watermark * (100 + margin_percent)
}

/// The verdict on `sample` over `watermark`: accepted if and only if it clears
/// the margin.
pub open spec fn verdict_on(sample: nat, watermark: nat, margin_percent: nat) -> Verdict {
    if clears_margin(sample, watermark, margin_percent) {
        Verdict::Accepted
    } else {
        Verdict::Rejected
    }
}

/// Decides on `sample` over `watermark` with the default margin of one
/// percent: accepted if and only if `sample > watermark * 1.01`. Nothing is
/// kept: whoever asks holds the watermark, and raises it to an accepted
/// sample.
pub fn evaluate(sample: u32, watermark: u32) -> (verdict: Verdict)
    ensures
        verdict == verdict_on(sample as nat, watermark as nat, DEFAULT_MARGIN_PERCENT as nat),
{
    evaluate_with_margin(sample, watermark, DEFAULT_MARGIN_PERCENT)
}

/// Decides on `sample` over `watermark` with the margin `margin_percent`.
pub fn evaluate_with_margin(sample: u32, watermark: u32, margin_percent: u32) -> (verdict: Verdict)
    ensures
        verdict == verdict_on(sample as nat, watermark as nat, margin_percent as nat),
{
    let scaled: u128 = sample as u128 * 100;
    let factor: u128 = 100 + margin_percent as u128;
    assert(watermark as u128 * factor <= 0xffff_ffff * 0x1_0000_0063) by (nonlinear_arith)
        requires
            watermark <= 0xffff_ffff,
            factor <= 0x1_0000_0063,
    ;
    let threshold: u128 = watermark as u128 * factor;
    if scaled > threshold {
        Verdict::Accepted
    } else {
        Verdict::Rejected
    }
}

/// A sample that clears the margin is strictly greater than the watermark,
/// whatever the margin.
pub proof fn lemma_accepted_exceeds_watermark(sample: nat, watermark: nat, margin_percent: nat)
    requires
        clears_margin(sample, watermark, margin_percent),
    ensures
        sample > watermark,
{
    assert(watermark * (100 + margin_percent) >= watermark * 100) by (nonlinear_arith);
}

/// Over a watermark of zero every sample but zero clears the margin, and zero
/// does not.
pub proof fn lemma_first_count_is_accepted(sample: nat, margin_percent: nat)
    ensures
        clears_margin(sample, 0, margin_percent) <==> sample > 0,
{
    assert(0 * (100 + margin_percent) == 0) by (nonlinear_arith);
}

/// Where a sample clears the margin, so does every greater one; and it clears
/// every smaller margin and the margin over every smaller watermark.
pub proof fn lemma_clearing_is_monotone(
    sample: nat,
    watermark: nat,
    margin_percent: nat,
    greater: nat,
    lower: nat,
    smaller_margin: nat,
)
    requires
        clears_margin(sample, watermark, margin_percent),
        sample <= greater,
        lower <= watermark,
        smaller_margin <= margin_percent,
    ensures
        clears_margin(greater, lower, smaller_margin),
{
    assert(lower * (100 + smaller_margin) <= watermark * (100 + margin_percent))
        by (nonlinear_arith)
        requires
            lower <= watermark,
            smaller_margin <= margin_percent,
    ;
}

/// No sample clears the margin over itself: the same count twice in a row is
/// announced once.
pub proof fn lemma_same_count_is_rejected(sample: nat, margin_percent: nat)
    ensures
        !clears_margin(sample, sample, margin_percent),
{
    assert(sample * (100 + margin_percent) >= sample * 100) by (nonlinear_arith);
}

} // verus!
