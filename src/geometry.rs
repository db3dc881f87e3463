//! Terminal size and native console geometry.
use vstd::prelude::*;

verus! {

/// Largest value of a console geometry dimension (a signed 16-bit count).
pub const COORD_MAX: usize = 32767;

/// The size of the terminal grid, in cells.
#[derive(Clone, Copy, Debug, PartialEq, Eq, Structural)]
pub struct SizeInfo {
    pub columns: usize,
    pub screen_lines: usize,
}

impl SizeInfo {
    pub fn new(columns: usize, screen_lines: usize) -> (r: SizeInfo)
        ensures
            r.columns == columns,
            r.screen_lines == screen_lines,
    {
        SizeInfo { columns, screen_lines }
    }

    pub fn columns(&self) -> (r: usize)
        ensures
            r == self.columns,
    {
        self.columns
    }

    pub fn screen_lines(&self) -> (r: usize)
        ensures
            r == self.screen_lines,
    {
        self.screen_lines
    }
}

/// Native console geometry: columns in `x`, rows in `y`.
#[derive(Clone, Copy, Debug, PartialEq, Eq, Structural)]
pub struct Coord {
    pub x: i16,
    pub y: i16,
}

/// Whether a size fits the console geometry without loss.
pub open spec fn representable(columns: int, lines: int) -> bool {
    0 <= columns <= COORD_MAX && 0 <= lines <= COORD_MAX
}

/// The geometry for a size, or `None` when either dimension does not fit.
pub open spec fn coord_of(size: SizeInfo) -> Option<Coord> {
    if representable(size.columns as int, size.screen_lines as int) {
        Some(Coord { x: size.columns as i16, y: size.screen_lines as i16 })
    } else {
        None
    }
}

/// Converts a terminal size into console geometry, or `None` when the
/// columns or the lines exceed the signed 16-bit range. Never truncates.
pub fn coord_from_sizeinfo(size: &SizeInfo) -> (r: Option<Coord>)
    ensures
        r == coord_of(*size),
        r is Some <==> size.columns <= COORD_MAX && size.screen_lines <= COORD_MAX,
        r matches Some(c) ==> c.x as int == size.columns as int && c.y as int
            == size.screen_lines as int,
{
    let lines = size.screen_lines();
    let columns = size.columns();
    if columns <= COORD_MAX && lines <= COORD_MAX {
        Some(Coord { x: columns as i16, y: lines as i16 })
    } else {
        None
    }
}

/// Every size within the signed 16-bit range converts, and the geometry
/// holds exactly the columns and the lines that were asked for.
pub proof fn lemma_coord_round_trip(size: SizeInfo)
    requires
        size.columns <= COORD_MAX,
        size.screen_lines <= COORD_MAX,
    ensures
        coord_of(size) is Some,
        coord_of(size)->Some_0.x as usize == size.columns,
        coord_of(size)->Some_0.y as usize == size.screen_lines,
{
}

/// A size with a dimension beyond the signed 16-bit range gives no geometry
/// at all: it is neither truncated nor wrapped.
pub proof fn lemma_coord_overflow_rejected(size: SizeInfo)
    requires
        size.columns > COORD_MAX || size.screen_lines > COORD_MAX,
    ensures
        coord_of(size) is None,
{
}

} // verus!
