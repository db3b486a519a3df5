use visual_trace::arrows::{arrow_centers, arrow_count, plan_path, segment_decoration, ArrowCenter};
use visual_trace::geometry::{ScreenPos, ScreenRect};

fn rect(min_x: i64, min_y: i64, max_x: i64, max_y: i64) -> ScreenRect {
    ScreenRect {
        min: ScreenPos { x: min_x, y: min_y },
        max: ScreenPos { x: max_x, y: max_y },
    }
}

#[test]
fn count_is_floor_of_length_over_spacing() {
    let a = ScreenPos { x: 0, y: 0 };
    assert_eq!(arrow_count(a, ScreenPos { x: 95, y: 0 }, 30), 3);
    assert_eq!(arrow_count(a, ScreenPos { x: 90, y: 0 }, 30), 3);
    assert_eq!(arrow_count(a, ScreenPos { x: 89, y: 0 }, 30), 2);
    assert_eq!(arrow_count(a, ScreenPos { x: 29, y: 0 }, 30), 0);
    assert_eq!(arrow_count(a, a, 30), 0);
    // 3-4-5 triangle: length exactly 50.
    assert_eq!(arrow_count(a, ScreenPos { x: 30, y: 40 }, 10), 5);
}

#[test]
fn three_arrows_at_quarter_fractions() {
    // Visible length 95 with spacing 30: floor(95 / 30) = 3 arrows at
    // fractions 1/4, 2/4 and 3/4 along the segment.
    let a = ScreenPos { x: 0, y: 0 };
    let b = ScreenPos { x: 95, y: 0 };
    let count = arrow_count(a, b, 30);
    assert_eq!(count, 3);
    let centers = arrow_centers(a, b, count);
    assert_eq!(
        centers,
        vec![
            ArrowCenter { num_x: 95, num_y: 0, den: 4 },
            ArrowCenter { num_x: 190, num_y: 0, den: 4 },
            ArrowCenter { num_x: 285, num_y: 0, den: 4 },
        ]
    );
    // As real coordinates: 23.75, 47.5 and 71.25.
    assert_eq!(centers[0].num_x as f64 / centers[0].den as f64, 23.75);
    assert_eq!(centers[1].num_x as f64 / centers[1].den as f64, 47.5);
    assert_eq!(centers[2].num_x as f64 / centers[2].den as f64, 71.25);
}

#[test]
fn decoration_same_side_has_no_arrows() {
    // Both endpoints strictly left of the viewport: no arrows at all, even
    // though the caller still draws the unclipped line itself.
    let r = rect(0, 0, 100, 100);
    let a = ScreenPos { x: -40, y: 10 };
    let b = ScreenPos { x: -10, y: 90 };
    assert!(segment_decoration(a, b, r, 30).is_none());
}

#[test]
fn decoration_inside_keeps_endpoints() {
    let r = rect(0, 0, 200, 200);
    let a = ScreenPos { x: 10, y: 10 };
    let b = ScreenPos { x: 105, y: 10 };
    let part = segment_decoration(a, b, r, 30).unwrap();
    assert_eq!(part.start, a);
    assert_eq!(part.end, b);
    assert_eq!(part.arrows.len(), 3);
    // Fraction 1/4 of the 95-long visible run, offset by the start.
    assert_eq!(part.arrows[0], ArrowCenter { num_x: 10 * 4 + 95, num_y: 40, den: 4 });
}

#[test]
fn decoration_clips_before_placing_arrows() {
    let r = rect(0, 0, 100, 100);
    let a = ScreenPos { x: -50, y: 50 };
    let b = ScreenPos { x: 45, y: 50 };
    let part = segment_decoration(a, b, r, 30).unwrap();
    assert_eq!(part.start, ScreenPos { x: 0, y: 50 });
    assert_eq!(part.end, ScreenPos { x: 45, y: 50 });
    // Visible length 45: one arrow, centred at its midpoint.
    assert_eq!(part.arrows.len(), 1);
    assert_eq!(part.arrows[0], ArrowCenter { num_x: 45, num_y: 100, den: 2 });
}

#[test]
fn path_plan_covers_every_consecutive_pair() {
    let r = rect(0, 0, 100, 100);
    let positions = vec![
        ScreenPos { x: -40, y: -40 },
        ScreenPos { x: 10, y: 10 },
        ScreenPos { x: 105, y: 10 },
        ScreenPos { x: 300, y: 10 },
    ];
    let plans = plan_path(&positions, r, 30);
    assert_eq!(plans.len(), 3);
    for (k, plan) in plans.iter().enumerate() {
        assert_eq!(plan.from, positions[k]);
        assert_eq!(plan.to, positions[k + 1]);
    }
    // The middle segment is partly visible and gets decorated; the last
    // one leaves the viewport but still meets it, so it is decorated too.
    assert!(plans[0].visible.is_some());
    let mid = plans[1].visible.as_ref().unwrap();
    assert_eq!(mid.start, positions[1]);
    assert_eq!(mid.end, ScreenPos { x: 100, y: 10 });
    assert_eq!(mid.arrows.len(), 3);
}

#[test]
fn empty_and_single_node_paths_have_no_segments() {
    let r = rect(0, 0, 100, 100);
    assert!(plan_path(&vec![], r, 30).is_empty());
    assert!(plan_path(&vec![ScreenPos { x: 5, y: 5 }], r, 30).is_empty());
}
