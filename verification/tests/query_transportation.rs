use darkmap::query_transportation::query_transportation;
use darkmap::query_transportation::segment_of_row;
use darkmap::query_transportation::select_statement;
use darkmap::query_transportation::QueryError;
use darkmap::query_transportation::TransportationQueryParams;
use darkmap::query_transportation::TransportationRow;
use darkmap::road_class::Road;
use darkmap::road_class::RoadClass;
use darkmap::road_class::RoadError;
use darkmap::transportation::spawn_transportation;
use darkmap::wkb::Coord;

fn line(points: &[(f64, f64)]) -> Vec<u8> {
    let mut bytes = vec![1u8];
    bytes.extend_from_slice(&2u32.to_le_bytes());
    bytes.extend_from_slice(&(points.len() as u32).to_le_bytes());
    for (x, y) in points {
        bytes.extend_from_slice(&x.to_le_bytes());
        bytes.extend_from_slice(&y.to_le_bytes());
    }
    bytes
}

fn polygon() -> Vec<u8> {
    let mut bytes = vec![1u8];
    bytes.extend_from_slice(&3u32.to_le_bytes());
    bytes.extend_from_slice(&1u32.to_le_bytes());
    bytes.extend_from_slice(&4u32.to_le_bytes());
    for o in [0.0f64, 0.0, 1.0, 0.0, 1.0, 1.0, 0.0, 0.0] {
        bytes.extend_from_slice(&o.to_le_bytes());
    }
    bytes
}

fn row(geom: Vec<u8>, road: Option<&str>) -> TransportationRow {
    TransportationRow { geom, road: road.map(|r| r.to_string()) }
}

#[test]
fn only_classified_lines_become_segments() {
    let rows = vec![
        row(line(&[(139.0, 35.0), (139.001, 35.001)]), Some("{\"class\":\"primary\"}")),
        row(line(&[(139.0, 35.0), (139.002, 35.0)]), None),
        row(polygon(), Some("{\"class\":\"primary\"}")),
    ];
    let segments = query_transportation(&rows).unwrap();
    assert_eq!(segments.len(), 1);
    assert_eq!(segments[0].road_class, RoadClass::Primary);
    assert_eq!(segments[0].width, None);
    assert_eq!(
        segments[0].line,
        vec![
            Coord { x: 139.0f64.to_bits(), y: 35.0f64.to_bits() },
            Coord { x: 139.001f64.to_bits(), y: 35.001f64.to_bits() },
        ]
    );
}

#[test]
fn one_motorway_row_gives_one_motorway_ribbon() {
    let rows = vec![row(
        line(&[(139.0, 35.0), (139.001, 35.0005), (139.002, 35.002)]),
        Some("{\"class\":\"motorway\"}"),
    )];
    let segments = query_transportation(&rows).unwrap();
    assert_eq!(segments.len(), 1);
    assert_eq!(segments[0].road_class, RoadClass::Motorway);
    let spawn = spawn_transportation(&segments[0]).unwrap();
    assert_eq!(spawn.material, RoadClass::Motorway);
    assert_eq!(spawn.width.tenths, 120);
    assert_eq!(spawn.segment.points, 3);
    assert_eq!(spawn.segment.vertices.len(), 4 + 2 + 4);
    assert_eq!(spawn.segment.indices.len(), 3 * 8);
}

#[test]
fn no_rows_give_no_segments() {
    let segments = query_transportation(&vec![]).unwrap();
    assert_eq!(segments.len(), 0);
}

#[test]
fn segments_keep_the_order_of_their_rows() {
    let rows = vec![
        row(line(&[(1.0, 1.0), (2.0, 2.0)]), Some("{\"class\":\"footway\"}")),
        row(vec![1, 2, 3], Some("{\"class\":\"steps\"}")),
        row(line(&[(3.0, 3.0), (4.0, 4.0)]), Some("{}")),
        row(line(&[(5.0, 5.0), (6.0, 6.0)]), Some("{\"class\":\"trunk\"}")),
    ];
    let segments = query_transportation(&rows).unwrap();
    assert_eq!(segments.len(), 3);
    assert_eq!(segments[0].road_class, RoadClass::Footway);
    assert_eq!(segments[1].road_class, RoadClass::Unknown);
    assert_eq!(segments[2].road_class, RoadClass::Trunk);
    assert_eq!(f64::from_bits(segments[2].line[1].x), 6.0);
}

#[test]
fn malformed_metadata_of_a_line_ends_the_loading() {
    let rows = vec![
        row(line(&[(1.0, 1.0), (2.0, 2.0)]), Some("{\"class\":\"footway\"}")),
        row(line(&[(1.0, 1.0), (2.0, 2.0)]), Some("{\"class\"")),
        row(line(&[(1.0, 1.0), (2.0, 2.0)]), Some("not json either")),
    ];
    assert_eq!(query_transportation(&rows).err(), Some(QueryError::Road { row: 1 }));
}

#[test]
fn malformed_metadata_of_another_geometry_is_not_read() {
    let rows = vec![
        row(polygon(), Some("{\"class\"")),
        row(line(&[(1.0, 1.0), (2.0, 2.0)]), Some("{\"class\":\"track\"}")),
    ];
    let segments = query_transportation(&rows).unwrap();
    assert_eq!(segments.len(), 1);
    assert_eq!(segments[0].road_class, RoadClass::Track);
}

#[test]
fn a_row_becomes_what_its_parts_were_read_as() {
    let points = vec![Coord { x: 1, y: 2 }, Coord { x: 3, y: 4 }];
    let road = Road { class: Some("cycleway".to_string()) };
    let segment = segment_of_row(Some(points.clone()), Some(Ok(road)), 4).unwrap().unwrap();
    assert_eq!(segment.line, points);
    assert_eq!(segment.road_class, RoadClass::Cycleway);
    assert_eq!(segment.width, None);
    assert!(segment_of_row(None, Some(Ok(Road { class: None })), 4).unwrap().is_none());
    assert!(segment_of_row(Some(points.clone()), None, 4).unwrap().is_none());
    assert!(segment_of_row(None, None, 4).unwrap().is_none());
    assert!(segment_of_row(None, Some(Err(RoadError::Malformed)), 4).unwrap().is_none());
    assert_eq!(
        segment_of_row(Some(points), Some(Err(RoadError::Malformed)), 4).err(),
        Some(QueryError::Road { row: 4 })
    );
}

#[test]
fn statement_without_limit() {
    let params = TransportationQueryParams {
        from_string: "read_parquet('parquet/139_35_tokyo_transportation.parquet')".to_string(),
        limit: None,
    };
    assert_eq!(
        select_statement(&params),
        "SELECT id, geometry, road, level FROM read_parquet('parquet/139_35_tokyo_transportation.parquet')"
    );
}

#[test]
fn statement_with_limit() {
    let params = TransportationQueryParams { from_string: "segments".to_string(), limit: Some(250) };
    assert_eq!(
        select_statement(&params),
        "SELECT id, geometry, road, level FROM segments LIMIT 250"
    );
    let params = TransportationQueryParams { from_string: "segments".to_string(), limit: Some(0) };
    assert_eq!(select_statement(&params), "SELECT id, geometry, road, level FROM segments LIMIT 0");
}
