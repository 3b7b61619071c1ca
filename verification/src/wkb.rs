//! Well-known-binary geometry: which byte strings hold a line string, and
//! the decoding of its coordinates.
//!
//! A geometry starts with one byte for the byte order (zero for big-endian,
//! anything else for little-endian) and a 32-bit type word. The type's last
//! three decimal digits give the kind of geometry, its thousands the extra
//! ordinates (1: Z, 2: M, 3: both). A line string goes on with a 32-bit
//! point count and then the points, each ordinate a 64-bit float.
//!
//! Floats are carried as their IEEE-754 bit patterns.

use geozero::wkb::FromWkb;
use vstd::prelude::*;

verus! {

/// A planar coordinate, each ordinate the bit pattern of a 64-bit float.
#[derive(Clone, Copy, Debug, PartialEq, Eq, Hash, Structural)]
pub struct Coord {
    pub x: u64,
    pub y: u64,
}

/// The kind word of a line string.
pub const LINE_STRING: u32 = 2;

/// Bytes before the first point of a line string: byte order, type, count.
pub const LINE_HEADER: usize = 9;

/// The 32-bit word that starts at `at`, in the given byte order.
pub open spec fn word32(bytes: Seq<u8>, at: int, little: bool) -> nat {
    if little {
        (bytes[at] + bytes[at + 1] * 0x100 + bytes[at + 2] * 0x1_0000 + bytes[at + 3]
            * 0x100_0000) as nat
    } else {
        (bytes[at + 3] + bytes[at + 2] * 0x100 + bytes[at + 1] * 0x1_0000 + bytes[at]
            * 0x100_0000) as nat
    }
}

/// The 64-bit word that starts at `at`, in the given byte order.
pub open spec fn word64(bytes: Seq<u8>, at: int, little: bool) -> nat {
    if little {
        word32(bytes, at, true) + word32(bytes, at + 4, true) * 0x1_0000_0000
    } else {
        word32(bytes, at + 4, false) + word32(bytes, at, false) * 0x1_0000_0000
    }
}

/// Whether the geometry is stored in little-endian byte order.
pub open spec fn wkb_little(bytes: Seq<u8>) -> bool {
    bytes[0] != 0
}

/// The type word of the geometry.
pub open spec fn wkb_type(bytes: Seq<u8>) -> nat {
    word32(bytes, 1, wkb_little(bytes))
}

/// Bytes that one point of a geometry of this type takes: eight for each of
/// X and Y, and eight more for each of Z and M where the type has them.
pub open spec fn wkb_stride(type_word: nat) -> nat {
    let dimensions = type_word / 1000;
    let z: nat = if dimensions == 1 || dimensions == 3 {
        8
    } else {
        0
    };
    let m: nat = if dimensions == 2 || dimensions == 3 {
        8
    } else {
        0
    };
    16 + z + m
}

/// The point count that a line string states.
pub open spec fn wkb_points(bytes: Seq<u8>) -> nat {
    word32(bytes, 5, wkb_little(bytes))
}

/// Whether the bytes start with a whole line string: the header is there,
/// the kind is that of a line string, and every point that the count
/// announces is present. Bytes after the last point are not looked at.
pub open spec fn is_line_string(bytes: Seq<u8>) -> bool {
    &&& bytes.len() >= LINE_HEADER
    &&& wkb_type(bytes) % 1000 == LINE_STRING
    &&& LINE_HEADER + wkb_points(bytes) * wkb_stride(wkb_type(bytes)) <= bytes.len()
}

/// The point of a line string at index `i`: its first two ordinates.
pub open spec fn wkb_point(bytes: Seq<u8>, i: int) -> Coord {
    let at = LINE_HEADER + i * wkb_stride(wkb_type(bytes));
    Coord {
        x: word64(bytes, at, wkb_little(bytes)) as u64,
        y: word64(bytes, at + 8, wkb_little(bytes)) as u64,
    }
}

/// The points of a line string, in stored order.
pub open spec fn wkb_line(bytes: Seq<u8>) -> Seq<Coord> {
    Seq::new(wkb_points(bytes), |i: int| wkb_point(bytes, i))
}

/// Reads the 32-bit word that starts at `at`.
fn read_word32(bytes: &Vec<u8>, at: usize, little: bool) -> (word: u32)
    requires
        at + 4 <= bytes.len(),
    ensures
        word == word32(bytes@, at as int, little),
{
    let b0: u32 = bytes[at] as u32;
    let b1: u32 = bytes[at + 1] as u32;
    let b2: u32 = bytes[at + 2] as u32;
    let b3: u32 = bytes[at + 3] as u32;
    if little {
        b0 + b1 * 0x100 + b2 * 0x1_0000 + b3 * 0x100_0000
    } else {
        b3 + b2 * 0x100 + b1 * 0x1_0000 + b0 * 0x100_0000
    }
}

/// The point count of the line string that the bytes start with, or `None`
/// where they do not start with a whole line string.
pub fn line_string_points(bytes: &Vec<u8>) -> (points: Option<u32>)
    ensures
        points is Some <==> is_line_string(bytes@),
        points is Some ==> points->0 == wkb_points(bytes@),
{
    if bytes.len() < LINE_HEADER {
        return None;
    }
    let little = bytes[0] != 0;
    let type_word = read_word32(bytes, 1, little);
    if type_word % 1000 != LINE_STRING {
        return None;
    }
    let dimensions = type_word / 1000;
    let mut stride: u64 = 16;
    if dimensions == 1 || dimensions == 3 {
        stride = stride + 8;
    }
    if dimensions == 2 || dimensions == 3 {
        stride = stride + 8;
    }
    let points = read_word32(bytes, 5, little);
    assert(points as u64 * stride <= 0xffff_ffff * 32) by (nonlinear_arith)
        requires
            points <= 0xffff_ffff,
            stride <= 32,
    ;
    let payload: u64 = points as u64 * stride;
    if payload > (bytes.len() - LINE_HEADER) as u64 {
        return None;
    }
    Some(points)
}

/// geozero's `FromWkb::from_wkb` for `geo_types::Geometry`, in the plain
/// WKB dialect, on a cursor over the bytes. Of a byte string that starts
/// with a whole line string the reader makes a `Geometry::LineString` with
/// one coordinate for each announced point, in stored order: X and Y are
/// the first two 64-bit words of the point, read in the header's byte
/// order, and Z and M are passed over. Each ordinate is handed out as the
/// bit pattern of the float.
#[verifier::external_body]
fn decode_line_string(bytes: &Vec<u8>) -> (line: Option<Vec<Coord>>)
    requires
        is_line_string(bytes@),
    ensures
        line is Some,
        line->0@ == wkb_line(bytes@),
{
    let mut reader = std::io::Cursor::new(bytes.as_slice());
    match geo_types::Geometry::from_wkb(&mut reader, geozero::wkb::WkbDialect::Wkb) {
        Ok(geo_types::Geometry::LineString(line)) => Some(
            line.0.iter().map(|c| Coord { x: c.x.to_bits(), y: c.y.to_bits() }).collect(),
        ),
        _ => None,
    }
}

/// The coordinates of the line string that the bytes start with, or `None`
/// where they do not start with a whole line string (another kind of
/// geometry, a cut-off header, fewer points than announced).
pub fn read_line_string(bytes: &Vec<u8>) -> (line: Option<Vec<Coord>>)
    ensures
        line is Some <==> is_line_string(bytes@),
        line is Some ==> line->0@ == wkb_line(bytes@),
{
    match line_string_points(bytes) {
        Some(_) => decode_line_string(bytes),
        None => None,
    }
}

} // verus!
