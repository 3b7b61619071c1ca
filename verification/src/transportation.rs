//! Road features and what is put into the scene for each of them.

use crate::ribbon::RoadSegment;
use crate::ribbon::MAX_POINTS;
use crate::road_class::class_width;
use crate::road_class::RoadClass;
use crate::road_class::RoadWidth;
use crate::wkb::Coord;
use vstd::prelude::*;

verus! {

/// One road feature.
#[derive(Debug)]
pub struct Segment {
    /// The centreline, in geographic coordinates.
    pub line: Vec<Coord>,
    pub road_class: RoadClass,
    /// Width of this road where it is not that of its class.
    pub width: Option<RoadWidth>,
}

/// What a segment holds.
pub struct SegmentView {
    pub line: Seq<Coord>,
    pub road_class: RoadClass,
    pub width: Option<RoadWidth>,
}

impl View for Segment {
    type V = SegmentView;

    open spec fn view(&self) -> SegmentView {
        SegmentView { line: self.line@, road_class: self.road_class, width: self.width }
    }
}

/// The road features of a scene.
#[derive(Debug)]
pub struct SegmentsRes {
    pub segments: Vec<Segment>,
}

/// What is put into the scene for one road.
#[derive(Debug)]
pub struct RoadSpawn {
    /// The width that the ribbon is drawn with.
    pub width: RoadWidth,
    /// Height at which the ribbon is placed, in thousandths of a scene unit.
    pub lift: u32,
    /// The class whose material the ribbon is drawn with.
    pub material: RoadClass,
    pub segment: RoadSegment,
}

/// The width that a road is drawn with: its own where it has one, else that
/// of its class.
pub open spec fn effective_width(segment: SegmentView) -> RoadWidth {
    match segment.width {
        Some(width) => width,
        None => RoadWidth { tenths: class_width(segment.road_class) as u32 },
    }
}

/// Whether a road can be drawn: its centreline has two points or more, and
/// no more than a ribbon can be laid out for.
pub open spec fn drawable(segment: SegmentView) -> bool {
    2 <= segment.line.len() <= MAX_POINTS
}

/// Whether `spawn` is what is put into the scene for `segment`: the ribbon
/// of its centreline, in the effective width and the material of its class,
/// lifted by one hundredth of the width.
pub open spec fn is_spawn_of(spawn: RoadSpawn, segment: SegmentView) -> bool {
    &&& spawn.width == effective_width(segment)
    &&& spawn.lift == spawn.width.tenths
    &&& spawn.material == segment.road_class
    &&& spawn.segment.points == segment.line.len()
    &&& spawn.segment.is_ribbon()
}

/// Whether `spawn` is the outcome for `segment`: nothing where the road
/// cannot be drawn, else what is put into the scene for it.
pub open spec fn is_outcome_of(spawn: Option<RoadSpawn>, segment: SegmentView) -> bool {
    &&& spawn is Some <==> drawable(segment)
    &&& spawn is Some ==> is_spawn_of(spawn->0, segment)
}

impl Segment {
    /// The width that the road is drawn with: its own where it has one,
    /// else that of its class.
    pub fn effective_width(&self) -> (width: RoadWidth)
        ensures
            width == effective_width(self@),
    {
        match self.width {
            Some(width) => width,
            None => RoadWidth::from(&self.road_class),
        }
    }
}

/// What is put into the scene for a road, or `None` where its centreline
/// has fewer than two points or more than a ribbon can be laid out for.
///
/// The ribbon lies one hundredth of its width above the ground, so that a
/// wider road lies above a narrower one. A tenth of a scene unit is a
/// hundred thousandths, so the lift in thousandths is the width in tenths.
pub fn spawn_transportation(transportation: &Segment) -> (spawn: Option<RoadSpawn>)
    ensures
        is_outcome_of(spawn, transportation@),
{
    let points = transportation.line.len();
    if points < 2 || points > MAX_POINTS {
        return None;
    }
    let width = transportation.effective_width();
    let segment = RoadSegment::new(points);
    Some(RoadSpawn { width, lift: width.tenths, material: transportation.road_class, segment })
}

/// What is put into the scene for each road, in the order of the roads.
pub fn transportations_start(transportations_res: &SegmentsRes) -> (spawns: Vec<Option<RoadSpawn>>)
    ensures
        spawns@.len() == transportations_res.segments@.len(),
        forall|i: int|
            0 <= i < spawns@.len() ==> is_outcome_of(
                #[trigger] spawns@[i],
                transportations_res.segments@[i]@,
            ),
{
    let mut spawns: Vec<Option<RoadSpawn>> = Vec::new();
    let mut i: usize = 0;
    while i < transportations_res.segments.len()
        invariant
            i <= transportations_res.segments@.len(),
            spawns@.len() == i,
            forall|j: int|
                0 <= j < i ==> is_outcome_of(
                    #[trigger] spawns@[j],
                    transportations_res.segments@[j]@,
                ),
        decreases transportations_res.segments@.len() - i,
    {
        spawns.push(spawn_transportation(&transportations_res.segments[i]));
        i += 1;
    }
    spawns
}

/// A road that states no width of its own is drawn in exactly the width of
/// its class, and one that states a width is drawn in that width.
pub proof fn width_falls_back_to_class(segment: SegmentView)
    ensures
        segment.width is None ==> effective_width(segment).tenths == class_width(
            segment.road_class,
        ),
        segment.width is Some ==> effective_width(segment) == segment.width->0,
{
}

} // verus!
