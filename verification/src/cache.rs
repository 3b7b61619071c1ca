//! The local cache of a location: how its files are named, and the
//! statements that fill them from the remote dataset and read them back.
//!
//! Numbers come in as the text that they are written with.

use vstd::prelude::*;

verus! {

/// A part of the dataset that is cached in a file of its own.
#[derive(Clone, Copy, Debug, PartialEq, Eq, Hash, Structural)]
pub enum Theme {
    Transportation,
    Building,
}

/// The name of a theme in file names.
pub open spec fn theme_name(theme: Theme) -> Seq<char> {
    match theme {
        Theme::Transportation => "transportation"@,
        Theme::Building => "building"@,
    }
}

/// The table expression of a theme in the remote dataset.
pub open spec fn remote_text(theme: Theme) -> Seq<char> {
    match theme {
        Theme::Transportation => "read_parquet('/mnt/overture/theme=transportation/type=segment/*')"@,
        Theme::Building => "read_parquet('/mnt/overture/theme=buildings/type=building/*')"@,
    }
}

/// What the files of a location are named after: longitude, latitude and
/// name, joined by underscores.
pub open spec fn stem_text(longitude: Seq<char>, latitude: Seq<char>, name: Seq<char>) -> Seq<
    char,
> {
    longitude + "_"@ + latitude + "_"@ + name
}

/// The file that holds a theme of a location.
pub open spec fn file_text(stem: Seq<char>, theme: Theme) -> Seq<char> {
    "parquet/"@ + stem + "_"@ + theme_name(theme) + ".parquet"@
}

/// The table expression that reads a file.
pub open spec fn source_text(file: Seq<char>) -> Seq<char> {
    "read_parquet('"@ + file + "')"@
}

/// The condition that a feature's bounding box lies strictly inside the
/// given bounds.
pub open spec fn predicate_text(
    lon_min: Seq<char>,
    lat_min: Seq<char>,
    lon_max: Seq<char>,
    lat_max: Seq<char>,
) -> Seq<char> {
    "bbox.minX > "@ + lon_min + " AND bbox.minY > "@ + lat_min + " AND bbox.maxX < "@ + lon_max
        + " AND bbox.maxY < "@ + lat_max
}

/// The statement that writes the rows of a source that meet a condition to
/// a file.
pub open spec fn export_text(source: Seq<char>, predicate: Seq<char>, file: Seq<char>) -> Seq<
    char,
> {
    "COPY (SELECT * FROM "@ + source + " WHERE "@ + predicate + ") TO '"@ + file
        + "' (FORMAT 'parquet')"@
}

/// The statement that caches a theme of a location.
pub open spec fn cache_text(theme: Theme, stem: Seq<char>, predicate: Seq<char>) -> Seq<char> {
    export_text(remote_text(theme), predicate, file_text(stem, theme))
}

impl Theme {
    /// The name of the theme in file names.
    pub fn name(&self) -> (name: &'static str)
        ensures
            name@ == theme_name(*self),
    {
        match self {
            Theme::Transportation => "transportation",
            Theme::Building => "building",
        }
    }

    /// The table expression of the theme in the remote dataset.
    pub fn remote(&self) -> (source: &'static str)
        ensures
            source@ == remote_text(*self),
    {
        match self {
            Theme::Transportation => "read_parquet('/mnt/overture/theme=transportation/type=segment/*')",
            Theme::Building => "read_parquet('/mnt/overture/theme=buildings/type=building/*')",
        }
    }
}

/// What the files of a location are named after.
pub fn location_stem(longitude: &str, latitude: &str, name: &str) -> (stem: String)
    ensures
        stem@ == stem_text(longitude@, latitude@, name@),
{
    let mut stem = String::from_str(longitude);
    stem.append("_");
    stem.append(latitude);
    stem.append("_");
    stem.append(name);
    stem
}

/// The file that holds a theme of a location.
pub fn cache_file(stem: &str, theme: Theme) -> (file: String)
    ensures
        file@ == file_text(stem@, theme),
{
    let mut file = String::from_str("parquet/");
    file.append(stem);
    file.append("_");
    file.append(theme.name());
    file.append(".parquet");
    file
}

/// The table expression that reads a file.
pub fn source_expression(file: &str) -> (source: String)
    ensures
        source@ == source_text(file@),
{
    let mut source = String::from_str("read_parquet('");
    source.append(file);
    source.append("')");
    source
}

/// The condition that a feature's bounding box lies strictly inside the
/// given bounds.
pub fn bbox_predicate(lon_min: &str, lat_min: &str, lon_max: &str, lat_max: &str) -> (predicate:
    String)
    ensures
        predicate@ == predicate_text(lon_min@, lat_min@, lon_max@, lat_max@),
{
    let mut predicate = String::from_str("bbox.minX > ");
    predicate.append(lon_min);
    predicate.append(" AND bbox.minY > ");
    predicate.append(lat_min);
    predicate.append(" AND bbox.maxX < ");
    predicate.append(lon_max);
    predicate.append(" AND bbox.maxY < ");
    predicate.append(lat_max);
    predicate
}

/// The statement that writes the rows of a source that meet a condition to
/// a file.
pub fn export_statement(source: &str, predicate: &str, file: &str) -> (statement: String)
    ensures
        statement@ == export_text(source@, predicate@, file@),
{
    let mut statement = String::from_str("COPY (SELECT * FROM ");
    statement.append(source);
    statement.append(" WHERE ");
    statement.append(predicate);
    statement.append(") TO '");
    statement.append(file);
    statement.append("' (FORMAT 'parquet')");
    statement
}

/// The statements that cache a location: one that writes the road segments
/// inside the bounds to the location's transportation file, and one that
/// writes the buildings inside them to its building file.
pub fn cache_location(stem: &str, predicate: &str) -> (statements: (String, String))
    ensures
        statements.0@ == cache_text(Theme::Transportation, stem@, predicate@),
        statements.1@ == cache_text(Theme::Building, stem@, predicate@),
{
    let roads = Theme::Transportation;
    let buildings = Theme::Building;
    let road_file = cache_file(stem, roads);
    let building_file = cache_file(stem, buildings);
    (
        export_statement(roads.remote(), predicate, road_file.as_str()),
        export_statement(buildings.remote(), predicate, building_file.as_str()),
    )
}

} // verus!
