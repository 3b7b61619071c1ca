use darkmap::hover::building_overlay;
use darkmap::hover::centerline_strip;
use darkmap::hover::first_hit;
use darkmap::hover::road_overlay;
use darkmap::hover::tooltip_text;
use darkmap::hover::triangle_outlines;
use darkmap::hover::vertex_markers;
use darkmap::hover::HitKind;
use darkmap::hover::Marker;
use darkmap::hover::Outline;
use darkmap::hover::OverlayColor;
use darkmap::hover::TOOLTIP_RIGHT;
use darkmap::hover::TOOLTIP_UP;
use darkmap::ribbon::RoadSegment;

#[test]
fn first_hit_of_each_kind_is_found() {
    let hits = vec![HitKind::Other, HitKind::Building, HitKind::Road, HitKind::Building, HitKind::Road];
    assert_eq!(first_hit(&hits, HitKind::Road), Some(2));
    assert_eq!(first_hit(&hits, HitKind::Building), Some(1));
    assert_eq!(first_hit(&hits, HitKind::Other), Some(0));
    assert_eq!(first_hit(&vec![HitKind::Other], HitKind::Road), None);
    assert_eq!(first_hit(&vec![], HitKind::Building), None);
}

#[test]
fn road_markers_alternate_green_and_blue() {
    assert_eq!(
        vertex_markers(3, true),
        vec![
            Marker { vertex: 0, height: 1, color: OverlayColor::Green },
            Marker { vertex: 1, height: 1, color: OverlayColor::Blue },
            Marker { vertex: 2, height: 1, color: OverlayColor::Green },
        ]
    );
}

#[test]
fn building_markers_go_down_in_green() {
    assert_eq!(
        vertex_markers(2, false),
        vec![
            Marker { vertex: 0, height: 0, color: OverlayColor::Green },
            Marker { vertex: 1, height: 0, color: OverlayColor::Green },
        ]
    );
    assert!(vertex_markers(0, false).is_empty());
}

#[test]
fn outlines_take_whole_triangles() {
    assert_eq!(
        triangle_outlines(&vec![0, 1, 2, 2, 1, 3, 9, 8]),
        vec![Outline { a: 0, b: 1, c: 2 }, Outline { a: 2, b: 1, c: 3 }]
    );
    assert!(triangle_outlines(&vec![4, 5]).is_empty());
    assert!(triangle_outlines(&vec![]).is_empty());
}

#[test]
fn tooltip_prefers_the_name() {
    let name = "\u{6771}\u{4eac}\u{99c5}".to_string();
    let class = "transportation".to_string();
    assert_eq!(tooltip_text(Some(&name), Some(&class)), Some(name.clone()));
    assert_eq!(tooltip_text(Some(&name), None), Some(name.clone()));
    assert_eq!(tooltip_text(None, Some(&class)), Some(class.clone()));
    assert_eq!(tooltip_text(None, None), None);
}

#[test]
fn tooltip_stands_right_of_and_above_the_pointer() {
    assert_eq!(TOOLTIP_RIGHT, 4);
    assert_eq!(TOOLTIP_UP, 24);
}

#[test]
fn road_overlay_covers_the_ribbon() {
    let segment = RoadSegment::new(3);
    let overlay = road_overlay(segment.vertices.len(), &segment.indices, segment.points);
    assert_eq!(overlay.markers.len(), 10);
    assert_eq!(overlay.markers[7], Marker { vertex: 7, height: 1, color: OverlayColor::Blue });
    assert_eq!(overlay.outlines.len(), 8);
    assert_eq!(overlay.outlines[0], Outline { a: 0, b: 1, c: 2 });
    assert_eq!(overlay.outlines[7], Outline { a: 8, b: 7, c: 9 });
    assert_eq!(overlay.centerline, vec![0, 1, 2, 0]);
    assert_eq!(overlay.tooltip, None);
}

#[test]
fn building_overlay_carries_the_tooltip() {
    let class = "commercial".to_string();
    let overlay = building_overlay(4, &vec![0, 1, 2, 0, 2, 3], None, Some(&class));
    assert_eq!(overlay.markers.len(), 4);
    assert_eq!(overlay.markers[1], Marker { vertex: 1, height: 0, color: OverlayColor::Green });
    assert_eq!(overlay.outlines, vec![Outline { a: 0, b: 1, c: 2 }, Outline { a: 0, b: 2, c: 3 }]);
    assert!(overlay.centerline.is_empty());
    assert_eq!(overlay.tooltip, Some(class));
}

#[test]
fn centerline_strip_is_closed() {
    assert_eq!(centerline_strip(4), vec![0, 1, 2, 3, 0]);
    assert_eq!(centerline_strip(1), vec![0, 0]);
    assert!(centerline_strip(0).is_empty());
}
