//! The road classes, how a class is told from its name, and what each class
//! looks like on the map.
//!
//! Lengths are held as whole tenths of a scene unit, so that every figure of
//! the presentation table is exact.

use crate::json::json_text_member;
use crate::json::text_member;
use crate::text::text_eq;
use vstd::prelude::*;
use vstd::std_specs::convert::FromSpecImpl;

verus! {

/// Functional category of a road, from the most to the least significant
/// kind of way.
#[derive(Clone, Copy, Debug, PartialEq, Eq, Hash, Structural)]
pub enum RoadClass {
    Motorway,
    Primary,
    Secondary,
    Tertiary,
    Residential,
    /// Like residential, with legal restrictions for motor vehicles.
    LivingStreet,
    Trunk,
    /// Known, paved roads of low importance.
    Unclassified,
    /// Service road intended for parking.
    ParkingAisle,
    /// Service road intended for deliveries.
    Driveway,
    Pedestrian,
    Footway,
    Steps,
    Track,
    Cycleway,
    /// Like a track, with access implied for horses only.
    Bridleway,
    Unknown,
}

/// Metadata that a stored road feature carries.
#[derive(Clone, Debug)]
pub struct Road {
    /// The name of the road's class, where the feature states one.
    pub class: Option<String>,
}

/// A length in whole tenths of a scene unit.
#[derive(Clone, Copy, Debug, PartialEq, Eq, Hash, Structural)]
pub struct RoadWidth {
    pub tenths: u32,
}

/// Display colour of a road.
#[derive(Clone, Copy, Debug, PartialEq, Eq, Hash, Structural)]
pub enum Color {
    DarkGray,
    Gray,
    Yellow,
    AntiqueWhite,
    Beige,
    Salmon,
    Indigo,
    White,
    Azure,
    Olive,
    Crimson,
    OrangeRed,
    Silver,
    LimeGreen,
    Green,
    DarkGreen,
    /// A colour given by its channels, each in tenths of full intensity.
    Rgb { red: u8, green: u8, blue: u8 },
}

/// The name under which stored features state a class.
pub open spec fn class_name(class: RoadClass) -> Seq<char> {
    match class {
        RoadClass::Motorway => "motorway"@,
        RoadClass::Primary => "primary"@,
        RoadClass::Secondary => "secondary"@,
        RoadClass::Tertiary => "tertiary"@,
        RoadClass::Residential => "residential"@,
        RoadClass::LivingStreet => "livingStreet"@,
        RoadClass::Trunk => "trunk"@,
        RoadClass::Unclassified => "unclassified"@,
        RoadClass::ParkingAisle => "parkingAisle"@,
        RoadClass::Driveway => "driveway"@,
        RoadClass::Pedestrian => "pedestrian"@,
        RoadClass::Footway => "footway"@,
        RoadClass::Steps => "steps"@,
        RoadClass::Track => "track"@,
        RoadClass::Cycleway => "cycleway"@,
        RoadClass::Bridleway => "bridleway"@,
        RoadClass::Unknown => "unknown"@,
    }
}

/// The class that a name stands for: the class of that exact name, and
/// `Unknown` for every other text.
pub open spec fn classify(name: Seq<char>) -> RoadClass {
    if name == "motorway"@ {
        RoadClass::Motorway
    } else if name == "primary"@ {
        RoadClass::Primary
    } else if name == "secondary"@ {
        RoadClass::Secondary
    } else if name == "tertiary"@ {
        RoadClass::Tertiary
    } else if name == "residential"@ {
        RoadClass::Residential
    } else if name == "livingStreet"@ {
        RoadClass::LivingStreet
    } else if name == "trunk"@ {
        RoadClass::Trunk
    } else if name == "unclassified"@ {
        RoadClass::Unclassified
    } else if name == "parkingAisle"@ {
        RoadClass::ParkingAisle
    } else if name == "driveway"@ {
        RoadClass::Driveway
    } else if name == "pedestrian"@ {
        RoadClass::Pedestrian
    } else if name == "footway"@ {
        RoadClass::Footway
    } else if name == "steps"@ {
        RoadClass::Steps
    } else if name == "track"@ {
        RoadClass::Track
    } else if name == "cycleway"@ {
        RoadClass::Cycleway
    } else if name == "bridleway"@ {
        RoadClass::Bridleway
    } else {
        RoadClass::Unknown
    }
}

/// The class of a feature's metadata: that of its class name, `Unknown`
/// where it states none.
pub open spec fn road_class_of(class: Option<Seq<char>>) -> RoadClass {
    match class {
        Some(name) => classify(name),
        None => RoadClass::Unknown,
    }
}

/// Depth priority of a class, in tenths.
pub open spec fn class_depth_bias(class: RoadClass) -> nat {
    match class {
        RoadClass::Motorway => 160,
        RoadClass::Primary => 150,
        RoadClass::Secondary => 140,
        RoadClass::Tertiary => 130,
        RoadClass::Residential => 120,
        RoadClass::LivingStreet => 110,
        RoadClass::Trunk => 100,
        RoadClass::Unclassified => 90,
        RoadClass::ParkingAisle => 80,
        RoadClass::Driveway => 70,
        RoadClass::Pedestrian => 60,
        RoadClass::Footway => 50,
        RoadClass::Steps => 40,
        RoadClass::Track => 30,
        RoadClass::Cycleway => 20,
        RoadClass::Bridleway => 10,
        RoadClass::Unknown => 1,
    }
}

/// Default stroke width of a class, in tenths of a scene unit.
pub open spec fn class_width(class: RoadClass) -> nat {
    match class {
        RoadClass::Motorway => 120,
        RoadClass::Primary => 100,
        RoadClass::Secondary => 80,
        RoadClass::Tertiary => 60,
        RoadClass::Residential => 55,
        RoadClass::LivingStreet => 50,
        RoadClass::Trunk => 45,
        RoadClass::Unclassified => 40,
        RoadClass::ParkingAisle => 35,
        RoadClass::Driveway => 30,
        RoadClass::Pedestrian => 25,
        RoadClass::Footway => 15,
        RoadClass::Steps => 14,
        RoadClass::Track => 13,
        RoadClass::Cycleway => 12,
        RoadClass::Bridleway => 11,
        RoadClass::Unknown => 10,
    }
}

/// Display colour of a class.
pub open spec fn class_color(class: RoadClass) -> Color {
    match class {
        RoadClass::Motorway => Color::DarkGray,
        RoadClass::Primary => Color::Gray,
        RoadClass::Secondary => Color::Yellow,
        RoadClass::Tertiary => Color::AntiqueWhite,
        RoadClass::Residential => Color::Beige,
        RoadClass::LivingStreet => Color::Salmon,
        RoadClass::Trunk => Color::Indigo,
        RoadClass::Unclassified => Color::White,
        RoadClass::ParkingAisle => Color::Azure,
        RoadClass::Driveway => Color::Olive,
        RoadClass::Pedestrian => Color::Crimson,
        RoadClass::Footway => Color::OrangeRed,
        RoadClass::Steps => Color::Silver,
        RoadClass::Track => Color::LimeGreen,
        RoadClass::Cycleway => Color::Green,
        RoadClass::Bridleway => Color::DarkGreen,
        RoadClass::Unknown => Color::Rgb { red: 1, green: 1, blue: 3 },
    }
}

/// Place of a class in the order in which the classes are declared.
pub open spec fn class_rank(class: RoadClass) -> int {
    match class {
        RoadClass::Motorway => 0,
        RoadClass::Primary => 1,
        RoadClass::Secondary => 2,
        RoadClass::Tertiary => 3,
        RoadClass::Residential => 4,
        RoadClass::LivingStreet => 5,
        RoadClass::Trunk => 6,
        RoadClass::Unclassified => 7,
        RoadClass::ParkingAisle => 8,
        RoadClass::Driveway => 9,
        RoadClass::Pedestrian => 10,
        RoadClass::Footway => 11,
        RoadClass::Steps => 12,
        RoadClass::Track => 13,
        RoadClass::Cycleway => 14,
        RoadClass::Bridleway => 15,
        RoadClass::Unknown => 16,
    }
}

/// Every class, in the order of declaration.
pub open spec fn all_classes() -> Seq<RoadClass> {
    seq![
        RoadClass::Motorway,
        RoadClass::Primary,
        RoadClass::Secondary,
        RoadClass::Tertiary,
        RoadClass::Residential,
        RoadClass::LivingStreet,
        RoadClass::Trunk,
        RoadClass::Unclassified,
        RoadClass::ParkingAisle,
        RoadClass::Driveway,
        RoadClass::Pedestrian,
        RoadClass::Footway,
        RoadClass::Steps,
        RoadClass::Track,
        RoadClass::Cycleway,
        RoadClass::Bridleway,
        RoadClass::Unknown,
    ]
}

impl RoadClass {
    /// Depth priority of the class, in tenths: 160 for a motorway, falling
    /// by ten with each class down to 10 for a bridleway, and 1 where the
    /// class is unknown.
    pub fn depth_bias(&self) -> (bias: u32)
        ensures
            bias == class_depth_bias(*self),
    {
        match self {
            RoadClass::Motorway => 160,
            RoadClass::Primary => 150,
            RoadClass::Secondary => 140,
            RoadClass::Tertiary => 130,
            RoadClass::Residential => 120,
            RoadClass::LivingStreet => 110,
            RoadClass::Trunk => 100,
            RoadClass::Unclassified => 90,
            RoadClass::ParkingAisle => 80,
            RoadClass::Driveway => 70,
            RoadClass::Pedestrian => 60,
            RoadClass::Footway => 50,
            RoadClass::Steps => 40,
            RoadClass::Track => 30,
            RoadClass::Cycleway => 20,
            RoadClass::Bridleway => 10,
            RoadClass::Unknown => 1,
        }
    }

    /// The class that a name stands for. The match is exact and
    /// case-sensitive; any other text, the empty one and `unknown` among
    /// them, gives `Unknown`.
    pub fn from_string(s: &String) -> (class: RoadClass)
        ensures
            class == classify(s@),
    {
        let name = s.as_str();
        if text_eq(name, "motorway") {
            RoadClass::Motorway
        } else if text_eq(name, "primary") {
            RoadClass::Primary
        } else if text_eq(name, "secondary") {
            RoadClass::Secondary
        } else if text_eq(name, "tertiary") {
            RoadClass::Tertiary
        } else if text_eq(name, "residential") {
            RoadClass::Residential
        } else if text_eq(name, "livingStreet") {
            RoadClass::LivingStreet
        } else if text_eq(name, "trunk") {
            RoadClass::Trunk
        } else if text_eq(name, "unclassified") {
            RoadClass::Unclassified
        } else if text_eq(name, "parkingAisle") {
            RoadClass::ParkingAisle
        } else if text_eq(name, "driveway") {
            RoadClass::Driveway
        } else if text_eq(name, "pedestrian") {
            RoadClass::Pedestrian
        } else if text_eq(name, "footway") {
            RoadClass::Footway
        } else if text_eq(name, "steps") {
            RoadClass::Steps
        } else if text_eq(name, "track") {
            RoadClass::Track
        } else if text_eq(name, "cycleway") {
            RoadClass::Cycleway
        } else if text_eq(name, "bridleway") {
            RoadClass::Bridleway
        } else {
            RoadClass::Unknown
        }
    }

    /// The name under which stored features state the class.
    pub fn name(&self) -> (name: &'static str)
        ensures
            name@ == class_name(*self),
    {
        match self {
            RoadClass::Motorway => "motorway",
            RoadClass::Primary => "primary",
            RoadClass::Secondary => "secondary",
            RoadClass::Tertiary => "tertiary",
            RoadClass::Residential => "residential",
            RoadClass::LivingStreet => "livingStreet",
            RoadClass::Trunk => "trunk",
            RoadClass::Unclassified => "unclassified",
            RoadClass::ParkingAisle => "parkingAisle",
            RoadClass::Driveway => "driveway",
            RoadClass::Pedestrian => "pedestrian",
            RoadClass::Footway => "footway",
            RoadClass::Steps => "steps",
            RoadClass::Track => "track",
            RoadClass::Cycleway => "cycleway",
            RoadClass::Bridleway => "bridleway",
            RoadClass::Unknown => "unknown",
        }
    }

    /// Every class once, in the order of declaration.
    pub fn all() -> (classes: Vec<RoadClass>)
        ensures
            classes@ == all_classes(),
    {
        let classes = vec![
            RoadClass::Motorway,
            RoadClass::Primary,
            RoadClass::Secondary,
            RoadClass::Tertiary,
            RoadClass::Residential,
            RoadClass::LivingStreet,
            RoadClass::Trunk,
            RoadClass::Unclassified,
            RoadClass::ParkingAisle,
            RoadClass::Driveway,
            RoadClass::Pedestrian,
            RoadClass::Footway,
            RoadClass::Steps,
            RoadClass::Track,
            RoadClass::Cycleway,
            RoadClass::Bridleway,
            RoadClass::Unknown,
        ];
        assert(classes@ =~= all_classes());
        classes
    }
}

/// Why a feature's metadata could not be read.
#[derive(Clone, Copy, Debug, PartialEq, Eq, Hash, Structural)]
pub enum RoadError {
    /// The text is not a JSON document.
    Malformed,
}

impl Road {
    /// Reads a feature's metadata from its JSON text. Of the document only
    /// the string member `class` is taken; a document without one gives a
    /// road that states no class. A text that is no JSON document is
    /// refused.
    pub fn parse(text: &str) -> (road: Result<Road, RoadError>)
        ensures
            road is Ok <==> json_text_member(text@, "class"@) is Some,
            road is Ok ==> road->Ok_0@ == json_text_member(text@, "class"@)->0,
            road is Err ==> road->Err_0 == RoadError::Malformed,
    {
        match text_member(text, "class") {
            Ok(class) => Ok(Road { class }),
            Err(_) => Err(RoadError::Malformed),
        }
    }

    /// The class of the road: that of its class name, `Unknown` where the
    /// feature states none.
    pub fn road_class(&self) -> (class: RoadClass)
        ensures
            class == road_class_of(self@),
    {
        match &self.class {
            Some(name) => RoadClass::from_string(name),
            None => RoadClass::Unknown,
        }
    }
}

impl View for Road {
    type V = Option<Seq<char>>;

    open spec fn view(&self) -> Option<Seq<char>> {
        match self.class {
            Some(name) => Some(name@),
            None => None,
        }
    }
}

impl From<&RoadClass> for Color {
    /// Display colour of a class.
    fn from(value: &RoadClass) -> (color: Color) {
        match value {
            RoadClass::Motorway => Color::DarkGray,
            RoadClass::Primary => Color::Gray,
            RoadClass::Secondary => Color::Yellow,
            RoadClass::Tertiary => Color::AntiqueWhite,
            RoadClass::Residential => Color::Beige,
            RoadClass::LivingStreet => Color::Salmon,
            RoadClass::Trunk => Color::Indigo,
            RoadClass::Unclassified => Color::White,
            RoadClass::ParkingAisle => Color::Azure,
            RoadClass::Driveway => Color::Olive,
            RoadClass::Pedestrian => Color::Crimson,
            RoadClass::Footway => Color::OrangeRed,
            RoadClass::Steps => Color::Silver,
            RoadClass::Track => Color::LimeGreen,
            RoadClass::Cycleway => Color::Green,
            RoadClass::Bridleway => Color::DarkGreen,
            RoadClass::Unknown => Color::Rgb { red: 1, green: 1, blue: 3 },
        }
    }
}

impl FromSpecImpl<&RoadClass> for Color {
    open spec fn obeys_from_spec() -> bool {
        true
    }

    open spec fn from_spec(value: &RoadClass) -> Color {
        class_color(*value)
    }
}

impl From<&RoadClass> for RoadWidth {
    /// Default stroke width of a class.
    fn from(value: &RoadClass) -> (width: RoadWidth) {
        match value {
            RoadClass::Motorway => RoadWidth { tenths: 120 },
            RoadClass::Primary => RoadWidth { tenths: 100 },
            RoadClass::Secondary => RoadWidth { tenths: 80 },
            RoadClass::Tertiary => RoadWidth { tenths: 60 },
            RoadClass::Residential => RoadWidth { tenths: 55 },
            RoadClass::LivingStreet => RoadWidth { tenths: 50 },
            RoadClass::Trunk => RoadWidth { tenths: 45 },
            RoadClass::Unclassified => RoadWidth { tenths: 40 },
            RoadClass::ParkingAisle => RoadWidth { tenths: 35 },
            RoadClass::Driveway => RoadWidth { tenths: 30 },
            RoadClass::Pedestrian => RoadWidth { tenths: 25 },
            RoadClass::Footway => RoadWidth { tenths: 15 },
            RoadClass::Steps => RoadWidth { tenths: 14 },
            RoadClass::Track => RoadWidth { tenths: 13 },
            RoadClass::Cycleway => RoadWidth { tenths: 12 },
            RoadClass::Bridleway => RoadWidth { tenths: 11 },
            RoadClass::Unknown => RoadWidth { tenths: 10 },
        }
    }
}

impl FromSpecImpl<&RoadClass> for RoadWidth {
    open spec fn obeys_from_spec() -> bool {
        true
    }

    open spec fn from_spec(value: &RoadClass) -> RoadWidth {
        RoadWidth { tenths: class_width(*value) as u32 }
    }
}

/// A name stands for a class other than `Unknown` only where it is that
/// class's own name, and each class's name stands for that class: the
/// sixteen names give their classes, every other text gives `Unknown`.
pub proof fn classification_is_total(name: Seq<char>, class: RoadClass)
    ensures
        classify(class_name(class)) == class,
        classify(name) != RoadClass::Unknown ==> name == class_name(classify(name)),
        classify(Seq::<char>::empty()) == RoadClass::Unknown,
        classify("unknown"@) == RoadClass::Unknown,
{
    reveal_strlit("motorway");
    reveal_strlit("primary");
    reveal_strlit("secondary");
    reveal_strlit("tertiary");
    reveal_strlit("residential");
    reveal_strlit("livingStreet");
    reveal_strlit("trunk");
    reveal_strlit("unclassified");
    reveal_strlit("parkingAisle");
    reveal_strlit("driveway");
    reveal_strlit("pedestrian");
    reveal_strlit("footway");
    reveal_strlit("steps");
    reveal_strlit("track");
    reveal_strlit("cycleway");
    reveal_strlit("bridleway");
    reveal_strlit("unknown");
    assert("motorway"@.len() == 8 && "motorway"@[0] == 'm');
    assert("primary"@.len() == 7 && "primary"@[0] == 'p');
    assert("secondary"@.len() == 9 && "secondary"@[0] == 's');
    assert("tertiary"@.len() == 8 && "tertiary"@[0] == 't');
    assert("residential"@.len() == 11);
    assert("livingStreet"@.len() == 12 && "livingStreet"@[0] == 'l');
    assert("trunk"@.len() == 5 && "trunk"@[0] == 't' && "trunk"@[2] == 'u');
    assert("unclassified"@.len() == 12 && "unclassified"@[0] == 'u');
    assert("parkingAisle"@.len() == 12 && "parkingAisle"@[0] == 'p');
    assert("driveway"@.len() == 8 && "driveway"@[0] == 'd');
    assert("pedestrian"@.len() == 10);
    assert("footway"@.len() == 7 && "footway"@[0] == 'f');
    assert("steps"@.len() == 5 && "steps"@[0] == 's');
    assert("track"@.len() == 5 && "track"@[0] == 't' && "track"@[2] == 'a');
    assert("cycleway"@.len() == 8 && "cycleway"@[0] == 'c');
    assert("bridleway"@.len() == 9 && "bridleway"@[0] == 'b');
    assert("unknown"@.len() == 7 && "unknown"@[0] == 'u');
}

/// No class lacks a presentation value: each has a positive depth priority
/// and a width of at least one scene unit, the depth priority
/// and the width fall strictly along the order of declaration, and
/// no two classes share a colour.
pub proof fn presentation_covers_every_class(a: RoadClass, b: RoadClass)
    ensures
        1 <= class_depth_bias(a) <= 160,
        10 <= class_width(a) <= 120,
        class_rank(a) < class_rank(b) ==> class_depth_bias(a) > class_depth_bias(b),
        class_rank(a) < class_rank(b) ==> class_width(a) > class_width(b),
        class_color(a) == class_color(b) ==> a == b,
{
}

/// The list of all classes holds each class exactly once, at its rank.
pub proof fn all_classes_is_complete(class: RoadClass, i: int)
    ensures
        all_classes().len() == 17,
        0 <= class_rank(class) < 17,
        all_classes()[class_rank(class)] == class,
        0 <= i < 17 ==> class_rank(all_classes()[i]) == i,
{
}

} // verus!
