use master_duel_translayer::region::{Region, BASE_RESOLUTION};

#[test]
fn width_and_height_are_edge_differences() {
    let r = Region { left: 0, top: 0, right: 190, bottom: 33 };
    assert_eq!(r.width(), 190);
    assert_eq!(r.height(), 33);
    let s = Region { left: -20, top: -7, right: 5, bottom: 3 };
    assert_eq!(s.width(), 25);
    assert_eq!(s.height(), 10);
}

#[test]
fn width_of_the_widest_region_needs_a_wider_type() {
    let r = Region { left: i32::MIN, top: 0, right: i32::MAX, bottom: 1 };
    assert!(r.is_well_formed());
    assert!(!r.is_measurable());
    let s = Region { left: i32::MIN, top: 0, right: -1, bottom: 1 };
    assert!(s.is_measurable());
    assert_eq!(s.width(), i32::MAX);
}

#[test]
fn well_formed_means_edges_in_order() {
    assert!(Region { left: 1, top: 2, right: 1, bottom: 2 }.is_well_formed());
    assert!(!Region { left: 2, top: 2, right: 1, bottom: 2 }.is_well_formed());
    assert!(!Region { left: 1, top: 3, right: 1, bottom: 2 }.is_well_formed());
}

#[test]
fn named_regions_are_laid_out_at_the_base_resolution() {
    assert_eq!(BASE_RESOLUTION, (2048, 1152));
    assert_eq!(
        Region::main_menu_duel(),
        Region { left: 140, right: 390, top: 225, bottom: 300 }
    );
    assert_eq!(
        Region::card_name_deck_edit(),
        Region { left: 59, right: 424, top: 168, bottom: 201 }
    );
}

#[test]
fn named_regions_scale_with_the_resolution() {
    let r = Region::main_menu_duel();
    assert_eq!(r.calc_by_resolution(BASE_RESOLUTION), r);
    assert_eq!(
        r.calc_by_resolution((1024, 576)),
        Region { left: 70, right: 195, top: 112, bottom: 150 }
    );
    assert_eq!(
        r.calc_by_resolution((4096, 2304)),
        Region { left: 280, right: 780, top: 450, bottom: 600 }
    );
}

#[test]
fn each_axis_scales_by_its_own_ratio() {
    let r = Region { left: 100, right: 200, top: 100, bottom: 200 };
    assert_eq!(
        r.scale((1000, 1000), (2000, 500)),
        Region { left: 200, right: 400, top: 50, bottom: 100 }
    );
    assert_eq!(
        r.calc_by_resolution((1920, 1080)),
        Region { left: 93, right: 187, top: 93, bottom: 187 }
    );
}

#[test]
fn scaling_rounds_down_also_below_zero() {
    let r = Region { left: -5, right: 5, top: -1, bottom: 1 };
    assert_eq!(
        r.scale((2, 2), (1, 1)),
        Region { left: -3, right: 2, top: -1, bottom: 0 }
    );
}

#[test]
fn scaling_there_and_back_stays_within_tolerance() {
    let from = (2048, 1152);
    let to = (1920, 1080);
    let r = Region::card_name_deck_edit();
    let there = r.scale(from, to);
    let back = there.scale(to, from);
    assert_eq!(there, Region { left: 55, right: 397, top: 157, bottom: 188 });
    assert_eq!(back, Region { left: 58, right: 423, top: 167, bottom: 200 });
    for (start, returned) in [
        (r.left, back.left),
        (r.right, back.right),
        (r.top, back.top),
        (r.bottom, back.bottom),
    ] {
        assert!(returned <= start);
        assert!((start - returned) as i64 * 1920 < 2048 + 1920);
    }
}

#[test]
fn scaling_up_and_back_loses_at_most_one_pixel() {
    let from = (1920, 1080);
    let to = (2048, 1152);
    for edge in [-1000, -7, 0, 1, 59, 424, 1919] {
        let r = Region { left: edge, right: edge, top: edge, bottom: edge };
        let back = r.scale(from, to).scale(to, from);
        assert!(back.left == edge || back.left == edge - 1);
        assert!(back.top == edge || back.top == edge - 1);
    }
}

#[test]
fn checked_scale_refuses_what_scale_cannot_take() {
    let r = Region { left: 0, right: 2_000_000_000, top: 0, bottom: 1 };
    assert_eq!(r.checked_scale((1, 1), (2, 1)), None);
    assert_eq!(r.checked_scale((0, 1), (1, 1)), None);
    assert_eq!(r.checked_scale((1, -1), (1, 1)), None);
    assert_eq!(
        r.checked_scale((2, 1), (1, 1)),
        Some(Region { left: 0, right: 1_000_000_000, top: 0, bottom: 1 })
    );
}
