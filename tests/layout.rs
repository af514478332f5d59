use traffic_editor::layout::ScenePoint;
use traffic_editor::site_map::{Edge, Level, MapDocument, MapError, SiteMap, Vertex};

fn v(x: i32, y: i32, name: &str) -> Vertex {
    Vertex { x, y, name: Some(name.to_string()) }
}

fn e(start: usize, end: usize) -> Edge {
    Edge { start, end }
}

fn map_of(vertices: Vec<Vertex>, lanes: Vec<Edge>, walls: Vec<Edge>) -> SiteMap {
    let doc = MapDocument {
        name: "m".to_string(),
        levels: vec![Level { name: "L1".to_string(), vertices, lanes, walls }],
    };
    let mut m = SiteMap::new();
    assert_eq!(m.load("m.yaml".to_string(), &doc), Ok(()));
    m
}

fn close(a: f64, b: f64) -> bool {
    (a - b).abs() < 1e-4
}

// Document Y grows downward, so (10, -10) in the document is (10, 10) on the map.
fn triangle() -> SiteMap {
    map_of(vec![v(0, 0, "A"), v(10, 0, "B"), v(10, -10, "C")], vec![e(0, 1)], vec![e(1, 2)])
}

#[test]
fn triangle_scene() {
    let l = triangle().layout().unwrap();
    assert_eq!(l.vertex_count, 3);
    assert_eq!((l.sum_x, l.sum_y), (20, 10));
    let den = l.denominator as f64;
    assert_eq!(l.denominator, 300);
    // centroid (6.667, 3.333)
    assert!(close(l.sum_x as f64 / 3.0, 6.6667));
    assert!(close(l.sum_y as f64 / 3.0, 3.3333));
    // vertex A at about (-0.0667, -0.0333)
    assert_eq!(l.markers[0], ScenePoint { x: -20, y: -10 });
    assert!(close(l.markers[0].x as f64 / den, -0.0667));
    assert!(close(l.markers[0].y as f64 / den, -0.0333));
    // lane A-B: length 10 map units, yaw 0, center about (-0.0167, -0.0333), height 0.01
    let lane = l.lanes[0];
    let dx = lane.segment.delta.x as f64;
    let dy = lane.segment.delta.y as f64;
    assert!(close(dx.hypot(dy) / den * 100.0, 10.0));
    assert!(close(dy.atan2(dx), 0.0));
    assert!(close(lane.segment.mid_twice.x as f64 / (2.0 * den), -0.0167));
    assert!(close(lane.segment.mid_twice.y as f64 / (2.0 * den), -0.0333));
    assert_eq!(lane.z_milli, 10);
    // wall B-C: length 10 map units, yaw pi/2, center about (0.0333, 0.0167)
    let wall = l.walls[0];
    let dx = wall.delta.x as f64;
    let dy = wall.delta.y as f64;
    assert!(close(dx.hypot(dy) / den * 100.0, 10.0));
    assert!(close(dy.atan2(dx), std::f64::consts::FRAC_PI_2));
    assert!(close(wall.mid_twice.x as f64 / (2.0 * den), 0.0333));
    assert!(close(wall.mid_twice.y as f64 / (2.0 * den), 0.0167));
    assert_eq!(wall.start, l.markers[1]);
    assert_eq!(wall.end, l.markers[2]);
}

#[test]
fn empty_map_cannot_be_laid_out() {
    assert!(matches!(SiteMap::new().layout(), Err(MapError::InvalidMapData)));
}

#[test]
fn moving_every_vertex_leaves_the_scene_unchanged() {
    let a = triangle().layout().unwrap();
    let b = map_of(vec![v(7, -3, "A"), v(17, -3, "B"), v(17, -13, "C")], vec![e(0, 1)], vec![e(1, 2)])
        .layout()
        .unwrap();
    assert_eq!(a.denominator, b.denominator);
    assert_eq!(a.markers, b.markers);
    assert_eq!(a.lanes, b.lanes);
    assert_eq!(a.walls, b.walls);
    assert_eq!(b.sum_x, a.sum_x + 3 * 7);
    assert_eq!(b.sum_y, a.sum_y + 3 * 3);
}

#[test]
fn markers_are_centered_on_the_centroid() {
    let l = map_of(vec![v(1, 2, "A"), v(4, 8, "B"), v(-2, 5, "C"), v(9, 9, "D")], vec![], vec![])
        .layout()
        .unwrap();
    assert_eq!(l.markers.iter().map(|p| p.x).sum::<i128>(), 0);
    assert_eq!(l.markers.iter().map(|p| p.y).sum::<i128>(), 0);
    assert_eq!(l.denominator, 400);
    // vertex B: x = 4 - 3 = 1 map unit = 0.01 world units
    assert_eq!(l.markers[1].x as f64 / l.denominator as f64, 0.01);
}

#[test]
fn lanes_rise_one_thousandth_each() {
    let l = map_of(
        vec![v(0, 0, "A"), v(1, 0, "B"), v(2, 0, "C")],
        vec![e(0, 1), e(1, 2), e(2, 0)],
        vec![],
    )
    .layout()
    .unwrap();
    let zs: Vec<u128> = l.lanes.iter().map(|p| p.z_milli).collect();
    assert_eq!(zs, vec![10, 11, 12]);
    assert!(l.walls.is_empty());
}

#[test]
fn single_vertex_sits_at_origin() {
    let l = map_of(vec![v(123, -456, "A")], vec![e(0, 0)], vec![]).layout().unwrap();
    assert_eq!(l.markers[0], ScenePoint { x: 0, y: 0 });
    assert_eq!(l.lanes[0].segment.delta, ScenePoint { x: 0, y: 0 });
}
