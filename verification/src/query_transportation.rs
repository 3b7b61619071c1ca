//! Loading road features: the statement that reads the stored rows, and the
//! selection of the rows that become road segments.

use crate::json::json_text_member;
use crate::road_class::road_class_of;
use crate::road_class::Road;
use crate::road_class::RoadError;
use crate::text::decimal;
use crate::text::decimal_text;
use crate::transportation::Segment;
use crate::transportation::SegmentView;
use crate::wkb::is_line_string;
use crate::wkb::read_line_string;
use crate::wkb::wkb_line;
use vstd::prelude::*;

verus! {

/// What to read road features from.
#[derive(Debug)]
pub struct TransportationQueryParams {
    /// The table expression that the rows are read from.
    pub from_string: String,
    /// Most rows to read, where there is a limit.
    pub limit: Option<u32>,
}

/// One stored row of a road feature.
#[derive(Debug)]
pub struct TransportationRow {
    /// The geometry, in well-known binary.
    pub geom: Vec<u8>,
    /// The feature's metadata as JSON text, where the row has any.
    pub road: Option<String>,
}

/// What a row holds.
pub struct TransportationRowView {
    pub geom: Seq<u8>,
    pub road: Option<Seq<char>>,
}

impl View for TransportationRow {
    type V = TransportationRowView;

    open spec fn view(&self) -> TransportationRowView {
        TransportationRowView {
            geom: self.geom@,
            road: match self.road {
                Some(text) => Some(text@),
                None => None,
            },
        }
    }
}

/// Why the rows could not be loaded.
#[derive(Clone, Copy, Debug, PartialEq, Eq, Hash, Structural)]
pub enum QueryError {
    /// The metadata of the row at this index is not a JSON document.
    Road { row: usize },
}

/// The statement that reads the rows: the four columns of a road feature
/// from the given table expression, with the limit where there is one.
pub open spec fn select_text(from: Seq<char>, limit: Option<u32>) -> Seq<char> {
    "SELECT id, geometry, road, level FROM "@ + from + match limit {
        Some(rows) => " LIMIT "@ + decimal(rows as nat),
        None => Seq::<char>::empty(),
    }
}

/// Whether a row is a road feature: its geometry is a line string and it
/// has metadata.
pub open spec fn row_selected(row: TransportationRowView) -> bool {
    is_line_string(row.geom) && row.road is Some
}

/// What the metadata of a selected row holds as its class: `None` where the
/// metadata is no JSON document.
pub open spec fn row_class(row: TransportationRowView) -> Option<Option<Seq<char>>> {
    json_text_member(row.road->0, "class"@)
}

/// The segment that a selected row with readable metadata becomes.
pub open spec fn row_segment(row: TransportationRowView) -> SegmentView {
    SegmentView {
        line: wkb_line(row.geom),
        road_class: road_class_of(row_class(row)->0),
        width: None,
    }
}

/// The outcome of loading the rows: the segments of the selected rows in
/// the order of the rows, or the index of the first selected row whose
/// metadata is no JSON document.
pub open spec fn segments_of(rows: Seq<TransportationRowView>) -> Result<Seq<SegmentView>, int>
    decreases rows.len(),
{
    if rows.len() == 0 {
        Ok(Seq::empty())
    } else {
        match segments_of(rows.drop_last()) {
            Err(row) => Err(row),
            Ok(segments) => {
                let row = rows.last();
                if !row_selected(row) {
                    Ok(segments)
                } else if row_class(row) is None {
                    Err(rows.len() - 1)
                } else {
                    Ok(segments.push(row_segment(row)))
                }
            },
        }
    }
}

/// The views of a list of rows.
pub open spec fn row_views(rows: Seq<TransportationRow>) -> Seq<TransportationRowView> {
    rows.map_values(|row: TransportationRow| row@)
}

/// The views of a list of segments.
pub open spec fn segment_views(segments: Seq<Segment>) -> Seq<SegmentView> {
    segments.map_values(|segment: Segment| segment@)
}

/// The statement that reads the rows of a query.
pub fn select_statement(params: &TransportationQueryParams) -> (statement: String)
    ensures
        statement@ == select_text(params.from_string@, params.limit),
{
    let mut statement = String::from_str("SELECT id, geometry, road, level FROM ");
    statement.append(params.from_string.as_str());
    match params.limit {
        Some(rows) => {
            statement.append(" LIMIT ");
            statement.append(decimal_text(rows).as_str());
        },
        None => {},
    }
    assert(statement@ =~= select_text(params.from_string@, params.limit));
    statement
}

/// What becomes of one row, given what its geometry and its metadata were
/// read as: nothing where the geometry is no line string or the row has no
/// metadata, an error where the metadata could not be read, and else the
/// segment of the line in the class of the metadata, with no width of its
/// own.
pub fn segment_of_row(
    line: Option<Vec<crate::wkb::Coord>>,
    road: Option<Result<Road, RoadError>>,
    row: usize,
) -> (segment: Result<Option<Segment>, QueryError>)
    ensures
        line is None || road is None ==> segment == Ok::<Option<Segment>, QueryError>(None),
        line is Some && road is Some && road->0 is Err ==> segment == Err::<
            Option<Segment>,
            QueryError,
        >(QueryError::Road { row }),
        line is Some && road is Some && road->0 is Ok ==> {
            &&& segment is Ok
            &&& segment->Ok_0 is Some
            &&& segment->Ok_0->0@ == SegmentView {
                line: line->0@,
                road_class: road_class_of(road->0->Ok_0@),
                width: None,
            }
        },
{
    match line {
        None => Ok(None),
        Some(line) => match road {
            None => Ok(None),
            Some(Err(_)) => Err(QueryError::Road { row }),
            Some(Ok(road)) => Ok(Some(Segment { line, road_class: road.road_class(), width: None })),
        },
    }
}

/// Makes the road segments of the stored rows.
///
/// A row becomes a segment where its geometry is a line string and it has
/// metadata; every other row is passed over. The segment holds the line's
/// coordinates and the class that the metadata names, `Unknown` where it
/// names none or one that is not known. The segments come in the order of
/// their rows. Metadata that is no JSON document ends the loading with the
/// index of its row.
pub fn query_transportation(rows: &Vec<TransportationRow>) -> (segments: Result<
    Vec<Segment>,
    QueryError,
>)
    ensures
        match segments_of(row_views(rows@)) {
            Ok(expected) => segments is Ok && segment_views(segments->Ok_0@) == expected,
            Err(row) => segments == Err::<Vec<Segment>, QueryError>(
                QueryError::Road { row: row as usize },
            ),
        },
{
    let mut segments: Vec<Segment> = Vec::new();
    let mut i: usize = 0;
    proof {
        assert(row_views(rows@).take(0) =~= Seq::empty());
        assert(segment_views(segments@) =~= Seq::empty());
    }
    while i < rows.len()
        invariant
            i <= rows@.len(),
            segments_of(row_views(rows@).take(i as int)) == Ok::<Seq<SegmentView>, int>(
                segment_views(segments@),
            ),
        decreases rows@.len() - i,
    {
        let row = &rows[i];
        let ghost before = segment_views(segments@);
        proof {
            let taken = row_views(rows@).take(i + 1);
            assert(taken.drop_last() =~= row_views(rows@).take(i as int));
            assert(taken.last() == row@);
        }
        let line = read_line_string(&row.geom);
        let road = match &row.road {
            Some(text) => if line.is_some() {
                Some(Road::parse(text.as_str()))
            } else {
                None
            },
            None => None,
        };
        match segment_of_row(line, road, i) {
            Err(error) => {
                proof {
                    lemma_first_error_stays(row_views(rows@), i + 1);
                    assert(row_views(rows@).take(rows@.len() as int) =~= row_views(rows@));
                }
                return Err(error);
            },
            Ok(None) => {},
            Ok(Some(segment)) => {
                segments.push(segment);
                assert(segment_views(segments@) =~= before.push(segment@));
            },
        }
        i += 1;
    }
    assert(row_views(rows@).take(rows@.len() as int) =~= row_views(rows@));
    Ok(segments)
}

/// Once the loading of some first rows has failed, that of more rows fails
/// at the same row.
proof fn lemma_first_error_stays(rows: Seq<TransportationRowView>, n: int)
    requires
        0 <= n <= rows.len(),
        segments_of(rows.take(n)) is Err,
    ensures
        segments_of(rows) == segments_of(rows.take(n)),
    decreases rows.len() - n,
{
    if n < rows.len() {
        let more = rows.take(n + 1);
        assert(more.drop_last() =~= rows.take(n));
        lemma_first_error_stays(rows, n + 1);
    } else {
        assert(rows.take(n) =~= rows);
    }
}

} // verus!
