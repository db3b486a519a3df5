use visual_trace::geometry::ScreenPos;
use visual_trace::provider::Provider;
use visual_trace::render::{hover_find, node_color_class, ColorClass};

#[test]
fn five_node_path_colors() {
    assert_eq!(node_color_class(0, 5), ColorClass::Start);
    assert_eq!(node_color_class(1, 5), ColorClass::Mid);
    assert_eq!(node_color_class(2, 5), ColorClass::Mid);
    assert_eq!(node_color_class(3, 5), ColorClass::Mid);
    assert_eq!(node_color_class(4, 5), ColorClass::End);
}

#[test]
fn single_node_is_start_colored() {
    // Index 0 is checked before the last-index rule, so the only node of a
    // one-node path takes the start color.
    assert_eq!(node_color_class(0, 1), ColorClass::Start);
}

#[test]
fn two_node_path_colors() {
    assert_eq!(node_color_class(0, 2), ColorClass::Start);
    assert_eq!(node_color_class(1, 2), ColorClass::End);
}

#[test]
fn hover_hits_the_single_node_in_range() {
    let positions = vec![
        ScreenPos { x: 0, y: 0 },
        ScreenPos { x: 100, y: 100 },
        ScreenPos { x: 200, y: 0 },
    ];
    let pointer = ScreenPos { x: 103, y: 96 };
    assert_eq!(hover_find(&positions, pointer, 10), Some(1));
}

#[test]
fn hover_equidistant_outside_all_radii_finds_none() {
    // The pointer sits exactly between two nodes, 25 pixels from each:
    // outside the 10-pixel radius of both, so no tooltip shows.
    let positions = vec![ScreenPos { x: 0, y: 0 }, ScreenPos { x: 50, y: 0 }];
    let pointer = ScreenPos { x: 25, y: 0 };
    assert_eq!(hover_find(&positions, pointer, 10), None);
}

#[test]
fn hover_prefers_first_match_in_index_order() {
    let positions = vec![ScreenPos { x: 10, y: 0 }, ScreenPos { x: 14, y: 0 }];
    let pointer = ScreenPos { x: 12, y: 0 };
    assert_eq!(hover_find(&positions, pointer, 10), Some(0));
}

#[test]
fn hover_radius_is_strict() {
    let positions = vec![ScreenPos { x: 0, y: 0 }];
    // Exactly 10 pixels away: not strictly within the radius.
    assert_eq!(hover_find(&positions, ScreenPos { x: 10, y: 0 }, 10), None);
    assert_eq!(hover_find(&positions, ScreenPos { x: 9, y: 0 }, 10), Some(0));
}

#[test]
fn single_tile_provider_is_available() {
    assert_eq!(Provider::OpenStreetMap, Provider::OpenStreetMap);
    assert_eq!(format!("{:?}", Provider::OpenStreetMap), "OpenStreetMap");
}
