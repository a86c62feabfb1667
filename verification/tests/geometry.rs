use galleria::tier::{
    plan_derivatives, plan_tier, scale_to_fit, DerivativePlan, Tier, LARGE_SIZE, MEDIUM_SIZE,
    SMALL_SIZE, THUMBNAIL_SIZE,
};

#[test]
fn tier_table_holds_limits_and_qualities() {
    assert_eq!(Tier::Thumbnail.max_dimension(), Some(200));
    assert_eq!(Tier::Small.max_dimension(), Some(640));
    assert_eq!(Tier::Medium.max_dimension(), Some(1280));
    assert_eq!(Tier::Large.max_dimension(), Some(1920));
    assert_eq!(Tier::Original.max_dimension(), None);
    assert_eq!(Tier::Thumbnail.quality(), 85);
    assert_eq!(Tier::Small.quality(), 85);
    assert_eq!(Tier::Medium.quality(), 90);
    assert_eq!(Tier::Large.quality(), 92);
    assert_eq!(Tier::Original.quality(), 92);
    assert_eq!((THUMBNAIL_SIZE, SMALL_SIZE, MEDIUM_SIZE, LARGE_SIZE), (200, 640, 1280, 1920));
}

#[test]
fn tier_names_are_the_key_segments() {
    assert_eq!(Tier::Thumbnail.name(), "thumbnail");
    assert_eq!(Tier::Small.name(), "small");
    assert_eq!(Tier::Medium.name(), "medium");
    assert_eq!(Tier::Large.name(), "large");
    assert_eq!(Tier::Original.name(), "original");
}

#[test]
fn landscape_is_scaled_with_rounding() {
    assert_eq!(scale_to_fit(3000, 2000, 200), (200, 133));
    assert_eq!(scale_to_fit(3000, 2000, 640), (640, 427));
    assert_eq!(scale_to_fit(3000, 2000, 1280), (1280, 853));
    assert_eq!(scale_to_fit(3000, 2000, 1920), (1920, 1280));
}

#[test]
fn portrait_is_scaled_with_rounding() {
    assert_eq!(scale_to_fit(2000, 3000, 200), (133, 200));
    assert_eq!(scale_to_fit(2000, 3000, 640), (427, 640));
    assert_eq!(scale_to_fit(1080, 1920, 1280), (720, 1280));
}

#[test]
fn square_keeps_both_sides_at_the_limit() {
    assert_eq!(scale_to_fit(100, 100, 200), (200, 200));
    assert_eq!(scale_to_fit(5000, 5000, 640), (640, 640));
}

#[test]
fn a_half_rounds_upwards() {
    // 1 * 200 / 400 is exactly one half.
    assert_eq!(scale_to_fit(400, 1, 200), (200, 1));
    // 3 * 200 / 400 is one and a half.
    assert_eq!(scale_to_fit(3, 400, 200), (2, 200));
    // Just under a half rounds down to nothing.
    assert_eq!(scale_to_fit(401, 1, 200), (200, 0));
}

#[test]
fn an_image_without_pixels_scales_to_nothing() {
    assert_eq!(scale_to_fit(0, 0, 200), (0, 200));
    assert_eq!(scale_to_fit(0, 50, 200), (0, 200));
    assert_eq!(scale_to_fit(50, 0, 200), (200, 0));
}

#[test]
fn the_largest_sides_do_not_overflow() {
    assert_eq!(scale_to_fit(u32::MAX, u32::MAX, u32::MAX), (u32::MAX, u32::MAX));
    assert_eq!(scale_to_fit(u32::MAX, u32::MAX - 1, 1920), (1920, 1920));
    assert_eq!(scale_to_fit(u32::MAX, 1, 1920), (1920, 0));
}

#[test]
fn a_small_source_is_enlarged_to_a_thumbnail() {
    let plan = plan_tier(Tier::Thumbnail, 100, 60);
    assert_eq!(plan, DerivativePlan { tier: Tier::Thumbnail, width: 200, height: 120 });
    assert!(plan.width > 100 && plan.height > 60);
}

#[test]
fn the_original_is_planned_at_source_size() {
    assert_eq!(
        plan_tier(Tier::Original, 3000, 2000),
        DerivativePlan { tier: Tier::Original, width: 3000, height: 2000 }
    );
    assert_eq!(
        plan_tier(Tier::Original, 70000, 1),
        DerivativePlan { tier: Tier::Original, width: 70000, height: 1 }
    );
}

#[test]
fn a_large_source_gets_all_five_tiers() {
    assert_eq!(
        plan_derivatives(3000, 2000),
        vec![
            DerivativePlan { tier: Tier::Thumbnail, width: 200, height: 133 },
            DerivativePlan { tier: Tier::Small, width: 640, height: 427 },
            DerivativePlan { tier: Tier::Medium, width: 1280, height: 853 },
            DerivativePlan { tier: Tier::Large, width: 1920, height: 1280 },
            DerivativePlan { tier: Tier::Original, width: 3000, height: 2000 },
        ]
    );
}

#[test]
fn a_small_source_gets_thumbnail_and_original_only() {
    assert_eq!(
        plan_derivatives(100, 100),
        vec![
            DerivativePlan { tier: Tier::Thumbnail, width: 200, height: 200 },
            DerivativePlan { tier: Tier::Original, width: 100, height: 100 },
        ]
    );
}

#[test]
fn a_tier_applies_only_beyond_its_limit() {
    assert!(!Tier::Small.applies_to(640, 640));
    assert!(Tier::Small.applies_to(641, 10));
    assert!(Tier::Small.applies_to(10, 641));
    assert!(!Tier::Medium.applies_to(1280, 1280));
    assert!(Tier::Medium.applies_to(1281, 1));
    assert!(!Tier::Large.applies_to(1920, 1080));
    assert!(Tier::Large.applies_to(1921, 1080));
    assert!(Tier::Thumbnail.applies_to(0, 0));
    assert!(Tier::Original.applies_to(0, 0));
}

#[test]
fn a_source_at_a_limit_skips_that_tier() {
    let tiers: Vec<Tier> = plan_derivatives(1280, 720).iter().map(|plan| plan.tier).collect();
    assert_eq!(tiers, vec![Tier::Thumbnail, Tier::Small, Tier::Original]);
    let tiers: Vec<Tier> = plan_derivatives(1281, 720).iter().map(|plan| plan.tier).collect();
    assert_eq!(tiers, vec![Tier::Thumbnail, Tier::Small, Tier::Medium, Tier::Original]);
}

#[test]
fn scaled_sides_stay_within_half_a_pixel() {
    let sources = [(3000u32, 2000u32), (2000, 3000), (641, 480), (1921, 7), (17, 4001), (1, 1)];
    for (width, height) in sources {
        for limit in [200u32, 640, 1280, 1920] {
            if limit != 200 && width.max(height) <= limit {
                continue;
            }
            let (w, h) = scale_to_fit(width, height, limit);
            assert_eq!(w.max(h), limit);
            let cross = 2 * (w as i64 * height as i64 - h as i64 * width as i64);
            assert!(cross.abs() <= width.max(height) as i64);
        }
    }
}
