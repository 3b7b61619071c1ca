use darkmap::cache::bbox_predicate;
use darkmap::cache::cache_file;
use darkmap::cache::cache_location;
use darkmap::cache::export_statement;
use darkmap::cache::location_stem;
use darkmap::cache::source_expression;
use darkmap::cache::Theme;
use darkmap::text::decimal_text;
use darkmap::text::text_eq;

#[test]
fn files_are_named_after_the_location() {
    let stem = location_stem("139.7", "35.68", "tokyo");
    assert_eq!(stem, "139.7_35.68_tokyo");
    assert_eq!(cache_file(&stem, Theme::Transportation), "parquet/139.7_35.68_tokyo_transportation.parquet");
    assert_eq!(cache_file(&stem, Theme::Building), "parquet/139.7_35.68_tokyo_building.parquet");
}

#[test]
fn cached_file_is_read_as_a_table() {
    assert_eq!(
        source_expression("parquet/139_35_x_building.parquet"),
        "read_parquet('parquet/139_35_x_building.parquet')"
    );
}

#[test]
fn predicate_keeps_boxes_inside_the_bounds() {
    assert_eq!(
        bbox_predicate("138.99", "34.99", "139.01", "35.01"),
        "bbox.minX > 138.99 AND bbox.minY > 34.99 AND bbox.maxX < 139.01 AND bbox.maxY < 35.01"
    );
}

#[test]
fn predicate_takes_the_bounds_that_floats_are_written_with() {
    let (lon, lat, shift) = (139.0f64, 35.0f64, 0.01f64);
    let predicate = bbox_predicate(
        &format!("{}", lon - shift),
        &format!("{}", lat - shift),
        &format!("{}", lon + shift),
        &format!("{}", lat + shift),
    );
    assert_eq!(
        predicate,
        "bbox.minX > 138.99 AND bbox.minY > 34.99 AND bbox.maxX < 139.01 AND bbox.maxY < 35.01"
    );
}

#[test]
fn export_writes_the_filtered_rows() {
    assert_eq!(
        export_statement("t", "a > 1", "parquet/f.parquet"),
        "COPY (SELECT * FROM t WHERE a > 1) TO 'parquet/f.parquet' (FORMAT 'parquet')"
    );
}

#[test]
fn location_is_cached_by_two_statements() {
    let (roads, buildings) = cache_location("139_35_tokyo", "bbox.minX > 1");
    assert_eq!(
        roads,
        "COPY (SELECT * FROM read_parquet('/mnt/overture/theme=transportation/type=segment/*') WHERE bbox.minX > 1) TO 'parquet/139_35_tokyo_transportation.parquet' (FORMAT 'parquet')"
    );
    assert_eq!(
        buildings,
        "COPY (SELECT * FROM read_parquet('/mnt/overture/theme=buildings/type=building/*') WHERE bbox.minX > 1) TO 'parquet/139_35_tokyo_building.parquet' (FORMAT 'parquet')"
    );
    assert_eq!(Theme::Transportation.name(), "transportation");
    assert_eq!(Theme::Building.name(), "building");
}

#[test]
fn numbers_are_written_in_decimal() {
    assert_eq!(decimal_text(0), "0");
    assert_eq!(decimal_text(7), "7");
    assert_eq!(decimal_text(10), "10");
    assert_eq!(decimal_text(1905), "1905");
    assert_eq!(decimal_text(u32::MAX), "4294967295");
}

#[test]
fn texts_are_equal_where_their_characters_are() {
    assert!(text_eq("", ""));
    assert!(text_eq("track", "track"));
    assert!(!text_eq("track", "trunk"));
    assert!(!text_eq("track", "tracks"));
    assert!(!text_eq("", "a"));
    assert!(text_eq("\u{6771}\u{4eac}", "\u{6771}\u{4eac}"));
    assert!(!text_eq("\u{6771}\u{4eac}", "\u{6771}\u{4eab}"));
}
