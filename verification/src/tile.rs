//! The bounded 2D tile coordinate system: coordinates in `[0, COORD_MAX]` on
//! each axis, saturating movement, and the bijection with linear tile indices.

use vstd::prelude::*;
use crate::input::Dir;

verus! {

/// Count of tiles along one axis, and of whole boards, fits in this type.
pub type Count = u32;

/// The backing integer of one tile coordinate axis.
pub type Coord = u8;

/// Largest valid value of a coordinate on either axis.
pub const COORD_MAX: Coord = 0b1111;

/// Number of distinct coordinate values on either axis.
pub const COORD_COUNT: Coord = 16;

/// Horizontal tile coordinate, always in `[0, COORD_MAX]`.
#[derive(Clone, Copy, Debug, PartialEq, Eq, Structural)]
pub struct X(pub Coord);

/// Vertical tile coordinate, always in `[0, COORD_MAX]`.
#[derive(Clone, Copy, Debug, PartialEq, Eq, Structural)]
pub struct Y(pub Coord);

impl X {
    /// Largest valid value.
    pub const MAX: Coord = 15;

    /// Number of distinct values.
    pub const COUNT: Count = 16;

    /// A coordinate is valid when it does not exceed the bound.
    pub open spec fn wf(self) -> bool {
        self.0 <= X::MAX
    }

    /// One step towards the right edge, stopping there.
    pub fn saturating_add_one(&self) -> (r: Self)
        ensures
            r.0 == if self.0 < X::MAX { self.0 + 1 } else { X::MAX as int },
            self.wf() ==> r.wf(),
    {
        if self.0 < X::MAX {
            X(self.0 + 1)
        } else {
            X(X::MAX)
        }
    }

    /// One step towards the left edge, stopping there.
    pub fn saturating_sub_one(&self) -> (r: Self)
        ensures
            r.0 == if self.0 > 0 { self.0 - 1 } else { 0int },
            self.wf() ==> r.wf(),
    {
        if self.0 > 0 {
            X(self.0 - 1)
        } else {
            X(0)
        }
    }

    /// The valid coordinate with this backing value, if it is in range.
    pub fn try_from(coord: Coord) -> (r: Result<Self, ()>)
        ensures
            coord <= X::MAX ==> r == Ok::<X, ()>(X(coord)),
            coord > X::MAX ==> r == Err::<X, ()>(()),
    {
        if coord <= X::MAX {
            Ok(X(coord))
        } else {
            Err(())
        }
    }

    /// The backing value.
    pub fn coord(self) -> (r: Coord)
        ensures
            r == self.0,
    {
        self.0
    }
}

impl Default for X {
    /// The left edge.
    fn default() -> (r: Self)
        ensures
            r == X(0),
    {
        X(0)
    }
}

impl Y {
    /// Largest valid value.
    pub const MAX: Coord = 15;

    /// Number of distinct values.
    pub const COUNT: Count = 16;

    /// A coordinate is valid when it does not exceed the bound.
    pub open spec fn wf(self) -> bool {
        self.0 <= Y::MAX
    }

    /// One step towards the bottom edge, stopping there.
    pub fn saturating_add_one(&self) -> (r: Self)
        ensures
            r.0 == if self.0 < Y::MAX { self.0 + 1 } else { Y::MAX as int },
            self.wf() ==> r.wf(),
    {
        if self.0 < Y::MAX {
            Y(self.0 + 1)
        } else {
            Y(Y::MAX)
        }
    }

    /// One step towards the top edge, stopping there.
    pub fn saturating_sub_one(&self) -> (r: Self)
        ensures
            r.0 == if self.0 > 0 { self.0 - 1 } else { 0int },
            self.wf() ==> r.wf(),
    {
        if self.0 > 0 {
            Y(self.0 - 1)
        } else {
            Y(0)
        }
    }

    /// The valid coordinate with this backing value, if it is in range.
    pub fn try_from(coord: Coord) -> (r: Result<Self, ()>)
        ensures
            coord <= Y::MAX ==> r == Ok::<Y, ()>(Y(coord)),
            coord > Y::MAX ==> r == Err::<Y, ()>(()),
    {
        if coord <= Y::MAX {
            Ok(Y(coord))
        } else {
            Err(())
        }
    }

    /// The backing value.
    pub fn coord(self) -> (r: Coord)
        ensures
            r == self.0,
    {
        self.0
    }
}

impl Default for Y {
    /// The top edge.
    fn default() -> (r: Self)
        ensures
            r == Y(0),
    {
        Y(0)
    }
}

/// A full tile coordinate: one cell of the grid.
#[derive(Clone, Copy, Debug, PartialEq, Eq, Structural)]
pub struct XY {
    pub x: X,
    pub y: Y,
}

impl XY {
    /// Number of cells in the whole grid.
    pub const COUNT: Count = 256;

    /// Both axes are in range.
    pub open spec fn wf(self) -> bool {
        self.x.wf() && self.y.wf()
    }

    pub fn move_up(&mut self)
        ensures
            *final(self) == (XY { y: old(self).y.spec_sub_one(), ..*old(self) }),
            old(self).wf() ==> final(self).wf(),
    {
        self.y = self.y.saturating_sub_one();
    }

    pub fn move_down(&mut self)
        ensures
            *final(self) == (XY { y: old(self).y.spec_add_one(), ..*old(self) }),
            old(self).wf() ==> final(self).wf(),
    {
        self.y = self.y.saturating_add_one();
    }

    pub fn move_left(&mut self)
        ensures
            *final(self) == (XY { x: old(self).x.spec_sub_one(), ..*old(self) }),
            old(self).wf() ==> final(self).wf(),
    {
        self.x = self.x.saturating_sub_one();
    }

    pub fn move_right(&mut self)
        ensures
            *final(self) == (XY { x: old(self).x.spec_add_one(), ..*old(self) }),
            old(self).wf() ==> final(self).wf(),
    {
        self.x = self.x.saturating_add_one();
    }
}

impl Default for XY {
    /// The upper-left cell.
    fn default() -> (r: Self)
        ensures
            r == (XY { x: X(0), y: Y(0) }),
    {
        XY { x: X(0), y: Y(0) }
    }
}

impl X {
    /// Value of [`X::saturating_add_one`].
    pub open spec fn spec_add_one(self) -> X {
        if self.0 < X::MAX {
            X((self.0 + 1) as Coord)
        } else {
            X(X::MAX)
        }
    }

    /// Value of [`X::saturating_sub_one`].
    pub open spec fn spec_sub_one(self) -> X {
        if self.0 > 0 {
            X((self.0 - 1) as Coord)
        } else {
            X(0)
        }
    }
}

impl Y {
    /// Value of [`Y::saturating_add_one`].
    pub open spec fn spec_add_one(self) -> Y {
        if self.0 < Y::MAX {
            Y((self.0 + 1) as Coord)
        } else {
            Y(Y::MAX)
        }
    }

    /// Value of [`Y::saturating_sub_one`].
    pub open spec fn spec_sub_one(self) -> Y {
        if self.0 > 0 {
            Y((self.0 - 1) as Coord)
        } else {
            Y(0)
        }
    }
}

/// Linear index of a tile coordinate: `y * 16 + x`.
pub open spec fn spec_xy_to_i(xy: XY) -> int {
    xy.y.0 * 16 + xy.x.0
}

/// Linear index from a coordinate pair already widened to `usize`.
pub fn xy_to_i_usize(xy: (usize, usize)) -> (r: usize)
    requires
        xy.0 <= 15,
        xy.1 <= 15,
    ensures
        r == xy.1 * 16 + xy.0,
{
    let (x, y) = xy;
    y * 16 + x
}

/// Linear index of a tile coordinate.
pub fn xy_to_i(xy: XY) -> (r: usize)
    requires
        xy.wf(),
    ensures
        r == spec_xy_to_i(xy),
        r < 256,
{
    xy_to_i_usize((xy.x.0 as usize, xy.y.0 as usize))
}

/// Tile coordinate with the given linear index; indices at or past
/// [`XY::COUNT`] wrap around the grid.
pub open spec fn spec_i_to_xy(index: int) -> XY {
    XY { x: X((index % 16) as Coord), y: Y(((index % 256) / 16) as Coord) }
}

/// Inverse of [`xy_to_i`] on valid indices.
pub fn i_to_xy(index: usize) -> (r: XY)
    ensures
        r == spec_i_to_xy(index as int),
        r.wf(),
{
    let x = to_coord_or_default((index % 16) as Count);
    let y = to_coord_or_default(((index % 256) / 16) as Count);
    XY { x: X(x), y: Y(y) }
}

/// Narrows a count to a coordinate, falling back to zero out of range.
pub fn to_coord_or_default(n: Count) -> (r: Coord)
    ensures
        r == if n <= 255 { n as int } else { 0int },
{
    if n <= 255 {
        n as Coord
    } else {
        0
    }
}

/// The index mapping is a bijection: every valid coordinate round-trips
/// through its linear index.
pub proof fn lemma_index_round_trip(xy: XY)
    requires
        xy.wf(),
    ensures
        spec_i_to_xy(spec_xy_to_i(xy)) == xy,
        0 <= spec_xy_to_i(xy) < 256,
{
}

/// Every valid linear index round-trips through its coordinate.
pub proof fn lemma_index_round_trip_back(index: int)
    requires
        0 <= index < 256,
    ensures
        spec_xy_to_i(spec_i_to_xy(index)) == index,
        spec_i_to_xy(index).wf(),
{
}

/// Every grid coordinate, complete and duplicate-free, in row-major order.
pub fn all_xys() -> (r: Vec<XY>)
    ensures
        r@.len() == 256,
        forall|i: int| 0 <= i < r@.len() ==> r@[i] == (XY {
            x: X((i % 16) as Coord),
            y: Y((i / 16) as Coord),
        }),
        forall|i: int| 0 <= i < r@.len() ==> (#[trigger] r@[i]).wf(),
{
    let mut output: Vec<XY> = Vec::with_capacity(256);
    let mut y: Coord = 0;
    while y < 16
        invariant
            y <= 16,
            output@.len() == y * 16,
            forall|i: int| 0 <= i < output@.len() ==> output@[i] == (XY {
                x: X((i % 16) as Coord),
                y: Y((i / 16) as Coord),
            }),
        decreases 16 - y,
    {
        let mut x: Coord = 0;
        while x < 16
            invariant
                y < 16,
                x <= 16,
                output@.len() == y * 16 + x,
                forall|i: int| 0 <= i < output@.len() ==> output@[i] == (XY {
                    x: X((i % 16) as Coord),
                    y: Y((i / 16) as Coord),
                }),
            decreases 16 - x,
        {
            output.push(XY { x: X(x), y: Y(y) });
            x = x + 1;
        }
        y = y + 1;
    }
    output
}

/// One saturating step in a compass direction; diagonal moves step both
/// axes.
pub open spec fn spec_move_xy(xy: XY, dir: Dir) -> XY {
    match dir {
        Dir::Up => XY { y: xy.y.spec_sub_one(), ..xy },
        Dir::UpRight => XY { x: xy.x.spec_add_one(), y: xy.y.spec_sub_one() },
        Dir::Right => XY { x: xy.x.spec_add_one(), ..xy },
        Dir::DownRight => XY { x: xy.x.spec_add_one(), y: xy.y.spec_add_one() },
        Dir::Down => XY { y: xy.y.spec_add_one(), ..xy },
        Dir::DownLeft => XY { x: xy.x.spec_sub_one(), y: xy.y.spec_add_one() },
        Dir::Left => XY { x: xy.x.spec_sub_one(), ..xy },
        Dir::UpLeft => XY { x: xy.x.spec_sub_one(), y: xy.y.spec_sub_one() },
    }
}

/// The coordinate after a whole sequence of saturating moves, first move
/// first.
pub open spec fn spec_move_path(xy: XY, dirs: Seq<Dir>) -> XY
    decreases dirs.len(),
{
    if dirs.len() == 0 {
        xy
    } else {
        spec_move_path(spec_move_xy(xy, dirs[0]), dirs.drop_first())
    }
}

/// One saturating move keeps both axes in `[0, COORD_MAX]`.
pub proof fn lemma_move_stays_in_bounds(xy: XY, dir: Dir)
    requires
        xy.wf(),
    ensures
        spec_move_xy(xy, dir).wf(),
{
}

/// Any sequence of saturating moves from any valid coordinate keeps both
/// axes in `[0, COORD_MAX]`.
pub proof fn lemma_move_path_stays_in_bounds(xy: XY, dirs: Seq<Dir>)
    requires
        xy.wf(),
    ensures
        spec_move_path(xy, dirs).wf(),
    decreases dirs.len(),
{
    if dirs.len() > 0 {
        lemma_move_stays_in_bounds(xy, dirs[0]);
        lemma_move_path_stays_in_bounds(spec_move_xy(xy, dirs[0]), dirs.drop_first());
    }
}


} // verus!
