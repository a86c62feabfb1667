//! Size tiers and the geometry of their derivatives.

use vstd::prelude::*;

verus! {

/// One named size class of a derivative.
#[derive(Clone, Copy, Debug, PartialEq, Eq, Structural)]
pub enum Tier {
    Thumbnail,
    Small,
    Medium,
    Large,
    Original,
}

/// Longest side of a thumbnail, in pixels.
pub const THUMBNAIL_SIZE: u32 = 200;

/// Longest side of a small derivative, in pixels.
pub const SMALL_SIZE: u32 = 640;

/// Longest side of a medium derivative, in pixels.
pub const MEDIUM_SIZE: u32 = 1280;

/// Longest side of a large derivative, in pixels.
pub const LARGE_SIZE: u32 = 1920;

/// The longest side a tier is resized to; the original tier is not resized.
pub open spec fn tier_limit(tier: Tier) -> Option<u32> {
    match tier {
        Tier::Thumbnail => Some(THUMBNAIL_SIZE),
        Tier::Small => Some(SMALL_SIZE),
        Tier::Medium => Some(MEDIUM_SIZE),
        Tier::Large => Some(LARGE_SIZE),
        Tier::Original => None,
    }
}

/// The JPEG quality factor a tier is encoded with.
pub open spec fn tier_quality(tier: Tier) -> u8 {
    match tier {
        Tier::Thumbnail => 85,
        Tier::Small => 85,
        Tier::Medium => 90,
        Tier::Large => 92,
        Tier::Original => 92,
    }
}

/// The name of a tier, as it appears in object keys.
pub open spec fn tier_name(tier: Tier) -> Seq<char> {
    match tier {
        Tier::Thumbnail => "thumbnail"@,
        Tier::Small => "small"@,
        Tier::Medium => "medium"@,
        Tier::Large => "large"@,
        Tier::Original => "original"@,
    }
}

/// The five tiers in the order in which their derivatives are generated.
pub open spec fn all_tiers() -> Seq<Tier> {
    seq![Tier::Thumbnail, Tier::Small, Tier::Medium, Tier::Large, Tier::Original]
}

/// The longer of the two sides.
pub open spec fn longest_side(width: u32, height: u32) -> u32 {
    if width > height {
        width
    } else {
        height
    }
}

/// `side * limit / longest`, rounded to the nearest integer, halves upwards.
/// An image without any pixel scales to nothing.
pub open spec fn scaled_side(side: int, longest: int, limit: int) -> int {
    if longest <= 0 {
        0
    } else {
        (2 * side * limit + longest) / (2 * longest)
    }
}

/// The dimensions of a `width` x `height` image scaled so that its longer side
/// is exactly `limit`. The scale factor `limit / longest_side` applies to both
/// sides, whether it shrinks or enlarges.
pub open spec fn scaled_dimensions(width: u32, height: u32, limit: u32) -> (int, int) {
    if width > height {
        (limit as int, scaled_side(height as int, width as int, limit as int))
    } else {
        (scaled_side(width as int, height as int, limit as int), limit as int)
    }
}

/// Whether a source of the given dimensions gets a derivative of this tier:
/// thumbnail and original always, the others only when the source exceeds
/// the tier's limit on some side.
pub open spec fn tier_applies(tier: Tier, width: u32, height: u32) -> bool {
    match tier {
        Tier::Thumbnail => true,
        Tier::Original => true,
        _ => longest_side(width, height) > tier_limit(tier).unwrap(),
    }
}

/// The dimensions of the derivative of this tier.
pub open spec fn tier_dimensions(tier: Tier, width: u32, height: u32) -> (int, int) {
    match tier_limit(tier) {
        Some(limit) => scaled_dimensions(width, height, limit),
        None => (width as int, height as int),
    }
}

impl Tier {
    /// The longest side this tier is resized to, `None` for the original.
    pub fn max_dimension(self) -> (limit: Option<u32>)
        ensures
            limit == tier_limit(self),
    {
        match self {
            Tier::Thumbnail => Some(THUMBNAIL_SIZE),
            Tier::Small => Some(SMALL_SIZE),
            Tier::Medium => Some(MEDIUM_SIZE),
            Tier::Large => Some(LARGE_SIZE),
            Tier::Original => None,
        }
    }

    /// The JPEG quality factor of this tier.
    pub fn quality(self) -> (quality: u8)
        ensures
            quality == tier_quality(self),
            1 <= quality <= 100,
    {
        match self {
            Tier::Thumbnail => 85,
            Tier::Small => 85,
            Tier::Medium => 90,
            Tier::Large => 92,
            Tier::Original => 92,
        }
    }

    /// The name of this tier.
    pub fn name(self) -> (name: &'static str)
        ensures
            name@ == tier_name(self),
    {
        match self {
            Tier::Thumbnail => "thumbnail",
            Tier::Small => "small",
            Tier::Medium => "medium",
            Tier::Large => "large",
            Tier::Original => "original",
        }
    }

    /// Whether a source of the given dimensions gets a derivative of this tier.
    pub fn applies_to(self, width: u32, height: u32) -> (applies: bool)
        ensures
            applies == tier_applies(self, width, height),
    {
        match self {
            Tier::Thumbnail => true,
            Tier::Original => true,
            Tier::Small => width > SMALL_SIZE || height > SMALL_SIZE,
            Tier::Medium => width > MEDIUM_SIZE || height > MEDIUM_SIZE,
            Tier::Large => width > LARGE_SIZE || height > LARGE_SIZE,
        }
    }
}

/// A scaled side never exceeds the limit the longer side is pinned to.
pub proof fn lemma_scaled_side_bounds(side: int, longest: int, limit: int)
    requires
        0 <= side <= longest,
        0 <= limit,
    ensures
        0 <= scaled_side(side, longest, limit) <= limit,
        side == longest && longest > 0 ==> scaled_side(side, longest, limit) == limit,
{
    if longest > 0 {
        let n = 2 * side * limit + longest;
        let d = 2 * longest;
        assert(side * limit <= longest * limit) by (nonlinear_arith)
            requires
                side <= longest,
                0 <= limit,
        ;
        assert(0 <= side * limit) by (nonlinear_arith)
            requires
                0 <= side,
                0 <= limit,
        ;
        assert(2 * side * limit == 2 * (side * limit)) by (nonlinear_arith);
        assert(limit * d == 2 * (longest * limit)) by (nonlinear_arith)
            requires
                d == 2 * longest,
        ;
        assert(0 <= n / d <= limit) by (nonlinear_arith)
            requires
                d > 0,
                0 <= n,
                n < limit * d + d,
        ;
        if side == longest {
            assert(n / d >= limit) by (nonlinear_arith)
                requires
                    d > 0,
                    n >= limit * d,
            ;
        }
    }
}

/// Scales one side of an image whose longer side becomes `limit`.
fn scale_side(side: u32, longest: u32, limit: u32) -> (scaled: u32)
    requires
        side <= longest,
    ensures
        scaled == scaled_side(side as int, longest as int, limit as int),
        scaled <= limit,
{
    if longest == 0 {
        return 0;
    }
    proof {
        lemma_scaled_side_bounds(side as int, longest as int, limit as int);
        assert(side * limit <= 0xffff_ffff * 0xffff_ffff) by (nonlinear_arith)
            requires
                0 <= side <= 0xffff_ffff,
                0 <= limit <= 0xffff_ffff,
        ;
        assert(2 * side * limit == 2 * (side * limit)) by (nonlinear_arith);
    }
    let product: u64 = (side as u64) * (limit as u64);
    let numerator: u128 = 2 * (product as u128) + (longest as u128);
    let denominator: u128 = 2 * (longest as u128);
    let quotient: u128 = numerator / denominator;
    quotient as u32
}

/// Computes the dimensions of an image scaled so that its longer side is
/// exactly `limit`.
pub fn scale_to_fit(width: u32, height: u32, limit: u32) -> (scaled: (u32, u32))
    ensures
        (scaled.0 as int, scaled.1 as int) == scaled_dimensions(width, height, limit),
        longest_side(width, height) > 0 ==> longest_side(scaled.0, scaled.1) == limit,
{
    proof {
        if width > height {
            lemma_scaled_side_bounds(height as int, width as int, limit as int);
        } else {
            lemma_scaled_side_bounds(width as int, height as int, limit as int);
        }
    }
    if width > height {
        (limit, scale_side(height, width, limit))
    } else {
        (scale_side(width, height, limit), limit)
    }
}

/// What one derivative of a source image will be: its tier and its dimensions.
#[derive(Clone, Copy, Debug, PartialEq, Eq, Structural)]
pub struct DerivativePlan {
    pub tier: Tier,
    pub width: u32,
    pub height: u32,
}

/// The planned derivative of one tier.
pub open spec fn planned(tier: Tier, width: u32, height: u32) -> DerivativePlan {
    DerivativePlan {
        tier,
        width: tier_dimensions(tier, width, height).0 as u32,
        height: tier_dimensions(tier, width, height).1 as u32,
    }
}

/// The planned derivative of a tier if the tier applies, nothing otherwise.
pub open spec fn planned_if_applies(tier: Tier, width: u32, height: u32) -> Seq<DerivativePlan> {
    if tier_applies(tier, width, height) {
        seq![planned(tier, width, height)]
    } else {
        Seq::empty()
    }
}

/// The derivatives of a `width` x `height` source, in the order in which they
/// are generated: thumbnail, then small, medium and large where they apply,
/// then the original.
pub open spec fn derivative_plan(width: u32, height: u32) -> Seq<DerivativePlan> {
    planned_if_applies(Tier::Thumbnail, width, height) + planned_if_applies(
        Tier::Small,
        width,
        height,
    ) + planned_if_applies(Tier::Medium, width, height) + planned_if_applies(
        Tier::Large,
        width,
        height,
    ) + planned_if_applies(Tier::Original, width, height)
}

/// Plans the derivative of one tier.
pub fn plan_tier(tier: Tier, width: u32, height: u32) -> (plan: DerivativePlan)
    ensures
        plan == planned(tier, width, height),
        (plan.width as int, plan.height as int) == tier_dimensions(tier, width, height),
{
    match tier.max_dimension() {
        Some(limit) => {
            let scaled = scale_to_fit(width, height, limit);
            DerivativePlan { tier, width: scaled.0, height: scaled.1 }
        },
        None => DerivativePlan { tier, width, height },
    }
}

/// Plans every derivative of a `width` x `height` source.
pub fn plan_derivatives(width: u32, height: u32) -> (plan: Vec<DerivativePlan>)
    ensures
        plan@ == derivative_plan(width, height),
        2 <= plan.len() <= 5,
{
    let mut plan: Vec<DerivativePlan> = Vec::new();
    plan.push(plan_tier(Tier::Thumbnail, width, height));
    if Tier::Small.applies_to(width, height) {
        plan.push(plan_tier(Tier::Small, width, height));
    }
    if Tier::Medium.applies_to(width, height) {
        plan.push(plan_tier(Tier::Medium, width, height));
    }
    if Tier::Large.applies_to(width, height) {
        plan.push(plan_tier(Tier::Large, width, height));
    }
    plan.push(plan_tier(Tier::Original, width, height));
    assert(plan@ =~= derivative_plan(width, height));
    plan
}

/// The original derivative has exactly the dimensions of the source, and it
/// is the last derivative of every plan.
pub proof fn law_original_keeps_dimensions(width: u32, height: u32)
    ensures
        tier_applies(Tier::Original, width, height),
        derivative_plan(width, height).last() == (DerivativePlan {
            tier: Tier::Original,
            width,
            height,
        }),
{
}

/// A tier has a derivative in the plan if and only if it applies to the
/// source: thumbnail and original always, small, medium and large exactly
/// when the longer side of the source exceeds the tier's limit. No tier
/// occurs twice.
pub proof fn law_tier_present_iff_applies(tier: Tier, width: u32, height: u32)
    ensures
        tier_applies(tier, width, height) <==> derivative_plan(width, height).contains(
            planned(tier, width, height),
        ),
        forall|i: int, j: int|
            #![trigger derivative_plan(width, height)[i], derivative_plan(width, height)[j]]
            0 <= i < j < derivative_plan(width, height).len() ==> derivative_plan(
                width,
                height,
            )[i].tier != derivative_plan(width, height)[j].tier,
        forall|i: int|
            0 <= i < derivative_plan(width, height).len() ==> #[trigger] derivative_plan(
                width,
                height,
            )[i] == planned(derivative_plan(width, height)[i].tier, width, height)
                && tier_applies(derivative_plan(width, height)[i].tier, width, height),
{
    let plan = derivative_plan(width, height);
    let a = planned_if_applies(Tier::Thumbnail, width, height);
    let b = planned_if_applies(Tier::Small, width, height);
    let c = planned_if_applies(Tier::Medium, width, height);
    let d = planned_if_applies(Tier::Large, width, height);
    let e = planned_if_applies(Tier::Original, width, height);
    assert(plan == a + b + c + d + e);
    assert(plan[0] == planned(Tier::Thumbnail, width, height));
    assert(plan.last() == planned(Tier::Original, width, height));
    if tier_applies(tier, width, height) {
        let k: int = match tier {
            Tier::Thumbnail => 0,
            Tier::Small => 1,
            Tier::Medium => 2,
            Tier::Large => 3,
            Tier::Original => plan.len() - 1,
        };
        assert(plan[k] == planned(tier, width, height));
    }
}

/// A scaled derivative has its longer side exactly at the limit, and its
/// shorter side within half a pixel of the exact proportional size: the
/// cross products of the two aspect ratios differ by at most half the longer
/// side of the source.
pub proof fn law_scaling_keeps_aspect_ratio(width: u32, height: u32, limit: u32)
    requires
        longest_side(width, height) > 0,
    ensures
        ({
            let (w, h) = scaled_dimensions(width, height, limit);
            &&& 0 <= w <= limit
            &&& 0 <= h <= limit
            &&& (w == limit || h == limit)
            &&& -(longest_side(width, height) as int) <= 2 * (w * height - h * width)
                <= longest_side(width, height)
        }),
{
    let longest = longest_side(width, height) as int;
    let side = if width > height { height as int } else { width as int };
    let l = limit as int;
    lemma_scaled_side_bounds(side, longest, l);
    let s = scaled_side(side, longest, l);
    let n = 2 * side * l + longest;
    let d = 2 * longest;
    assert(d * s <= n < d * s + d) by (nonlinear_arith)
        requires
            d > 0,
            s == n / d,
    ;
    assert(d * s == 2 * (s * longest)) by (nonlinear_arith)
        requires
            d == 2 * longest,
    ;
    assert(2 * side * l == 2 * (l * side)) by (nonlinear_arith);
}

/// Scaling to a limit that the source does not reach enlarges: no side
/// shrinks. Scaling to a limit that the source reaches or exceeds reduces:
/// no side grows.
pub proof fn law_scaling_direction(width: u32, height: u32, limit: u32)
    ensures
        ({
            let (w, h) = scaled_dimensions(width, height, limit);
            &&& limit >= longest_side(width, height) ==> w >= width && h >= height
            &&& limit <= longest_side(width, height) ==> w <= width && h <= height
        }),
{
    let longest = longest_side(width, height) as int;
    let side = if width > height { height as int } else { width as int };
    let l = limit as int;
    if longest > 0 {
        let s = scaled_side(side, longest, l);
        let n = 2 * side * l + longest;
        let d = 2 * longest;
        assert(2 * side * l == 2 * (side * l)) by (nonlinear_arith);
        assert(d * side == 2 * (side * longest)) by (nonlinear_arith)
            requires
                d == 2 * longest,
        ;
        if l >= longest {
            assert(side * l >= side * longest) by (nonlinear_arith)
                requires
                    l >= longest,
                    side >= 0,
            ;
            assert(n / d >= side) by (nonlinear_arith)
                requires
                    d > 0,
                    n >= d * side,
            ;
        }
        if l <= longest {
            assert(side * l <= side * longest) by (nonlinear_arith)
                requires
                    l <= longest,
                    side >= 0,
            ;
            assert(n / d <= side) by (nonlinear_arith)
                requires
                    d > 0,
                    n < d * side + d,
            ;
        }
    }
}

/// The thumbnail is part of every plan, first in order. A source smaller
/// than the thumbnail limit on both sides is enlarged: the thumbnail's longer
/// side is the limit, beyond the source's, and neither side is smaller than
/// the source's.
pub proof fn law_thumbnail_always_present(width: u32, height: u32)
    ensures
        derivative_plan(width, height)[0] == planned(Tier::Thumbnail, width, height),
        longest_side(width, height) < THUMBNAIL_SIZE ==> {
            let thumbnail = derivative_plan(width, height)[0];
            &&& longest_side(thumbnail.width, thumbnail.height) == THUMBNAIL_SIZE
            &&& longest_side(thumbnail.width, thumbnail.height) > longest_side(width, height)
            &&& thumbnail.width >= width
            &&& thumbnail.height >= height
        },
{
    law_scaling_direction(width, height, THUMBNAIL_SIZE);
    if width > height {
        lemma_scaled_side_bounds(height as int, width as int, THUMBNAIL_SIZE as int);
    } else {
        lemma_scaled_side_bounds(width as int, height as int, THUMBNAIL_SIZE as int);
    }
}

/// Different tiers have different names.
pub proof fn lemma_tier_names_differ(a: Tier, b: Tier)
    ensures
        tier_name(a) == tier_name(b) <==> a == b,
{
    reveal_strlit("thumbnail");
    reveal_strlit("small");
    reveal_strlit("medium");
    reveal_strlit("large");
    reveal_strlit("original");
    assert(tier_name(Tier::Thumbnail).len() == 9);
    assert(tier_name(Tier::Small).len() == 5 && tier_name(Tier::Small)[0] == 's');
    assert(tier_name(Tier::Medium).len() == 6);
    assert(tier_name(Tier::Large).len() == 5 && tier_name(Tier::Large)[0] == 'l');
    assert(tier_name(Tier::Original).len() == 8);
}

} // verus!
