//! Areas of the screen, in cells.

use vstd::prelude::*;

verus! {

#[derive(Clone, Copy, Debug, PartialEq, Eq, Structural)]
pub struct Position {
    pub x: u16,
    pub y: u16,
}

#[derive(Clone, Copy, Debug, PartialEq, Eq, Structural)]
pub struct Rect {
    pub x: u16,
    pub y: u16,
    pub width: u16,
    pub height: u16,
}

/// The sum, or the largest number where there is none.
pub open spec fn plus(a: u16, b: u16) -> u16 {
    if a + b <= u16::MAX {
        (a + b) as u16
    } else {
        u16::MAX
    }
}

/// The difference, or none where `b` is the larger.
pub open spec fn minus(a: u16, b: u16) -> u16 {
    if b <= a {
        (a - b) as u16
    } else {
        0
    }
}

pub open spec fn smaller(a: u16, b: u16) -> u16 {
    if a <= b {
        a
    } else {
        b
    }
}

pub open spec fn larger(a: u16, b: u16) -> u16 {
    if a >= b {
        a
    } else {
        b
    }
}

fn min_of(a: u16, b: u16) -> (m: u16)
    ensures
        m == smaller(a, b),
{
    if a <= b {
        a
    } else {
        b
    }
}

impl Rect {
    pub open spec fn right_spec(self) -> u16 {
        plus(self.x, self.width)
    }

    pub open spec fn bottom_spec(self) -> u16 {
        plus(self.y, self.height)
    }

    /// Whether the cell at `point` is inside.
    pub open spec fn covers(self, point: Position) -> bool {
        self.x <= point.x < self.right_spec() && self.y <= point.y < self.bottom_spec()
    }

    /// The cells of both.
    pub open spec fn common(self, other: Rect) -> Rect {
        let x = larger(self.x, other.x);
        let y = larger(self.y, other.y);
        Rect {
            x,
            y,
            width: minus(smaller(self.right_spec(), other.right_spec()), x),
            height: minus(smaller(self.bottom_spec(), other.bottom_spec()), y),
        }
    }

    /// The first column after the area.
    pub fn right(self) -> (right: u16)
        ensures
            right == self.right_spec(),
    {
        self.x.saturating_add(self.width)
    }

    /// The first row after the area.
    pub fn bottom(self) -> (bottom: u16)
        ensures
            bottom == self.bottom_spec(),
    {
        self.y.saturating_add(self.height)
    }

    pub fn is_empty(self) -> (empty: bool)
        ensures
            empty == (self.width == 0 || self.height == 0),
    {
        self.width == 0 || self.height == 0
    }

    pub fn contains(self, point: Position) -> (inside: bool)
        ensures
            inside == self.covers(point),
    {
        point.x >= self.x && point.x < self.right() && point.y >= self.y && point.y < self.bottom()
    }

    pub fn intersection(self, other: Rect) -> (both: Rect)
        ensures
            both == self.common(other),
    {
        let x = if self.x >= other.x {
            self.x
        } else {
            other.x
        };
        let y = if self.y >= other.y {
            self.y
        } else {
            other.y
        };
        Rect {
            x,
            y,
            width: min_of(self.right(), other.right()).saturating_sub(x),
            height: min_of(self.bottom(), other.bottom()).saturating_sub(y),
        }
    }

    /// A cell less on every side; nothing where there is no inside.
    pub open spec fn inside(self) -> Rect {
        if self.width < 2 || self.height < 2 {
            Rect { x: 0, y: 0, width: 0, height: 0 }
        } else {
            Rect {
                x: plus(self.x, 1),
                y: plus(self.y, 1),
                width: (self.width - 2) as u16,
                height: (self.height - 2) as u16,
            }
        }
    }

    /// The leftmost columns, as far as there are any.
    pub open spec fn left_part(self, columns: u16) -> Rect {
        Rect { width: smaller(columns, self.width), ..self }
    }

    /// What is left of the leftmost columns.
    pub open spec fn right_of(self, columns: u16) -> Rect {
        let taken = smaller(columns, self.width);
        Rect { x: plus(self.x, taken), width: (self.width - taken) as u16, ..self }
    }

    /// The rightmost columns, as far as there are any.
    pub open spec fn right_part(self, columns: u16) -> Rect {
        let taken = smaller(columns, self.width);
        Rect { x: plus(self.x, (self.width - taken) as u16), width: taken, ..self }
    }

    /// What is left of the rightmost columns.
    pub open spec fn left_of(self, columns: u16) -> Rect {
        Rect { width: (self.width - smaller(columns, self.width)) as u16, ..self }
    }

    /// The row `y`; nothing where it is outside.
    pub open spec fn row_at(self, y: u16) -> Rect {
        (Rect { y, height: 1, ..self }).common(self)
    }

    /// A box in the middle, no larger than the area.
    pub open spec fn middle(self, width: u16, height: u16) -> Rect {
        let width = smaller(width, self.width);
        let height = smaller(height, self.height);
        Rect {
            x: plus(self.x, ((self.width - width) / 2) as u16),
            y: plus(self.y, ((self.height - height) / 2) as u16),
            width,
            height,
        }
    }
}

pub fn inset(area: Rect) -> (inner: Rect)
    ensures
        inner == area.inside(),
{
    if area.width < 2 || area.height < 2 {
        Rect { x: 0, y: 0, width: 0, height: 0 }
    } else {
        Rect {
            x: area.x.saturating_add(1),
            y: area.y.saturating_add(1),
            width: area.width - 2,
            height: area.height - 2,
        }
    }
}

/// Takes columns off the left.
pub fn take_left(rest: &mut Rect, columns: u16) -> (taken: Rect)
    ensures
        taken == old(rest).left_part(columns),
        *final(rest) == old(rest).right_of(columns),
{
    let width: u16 = min_of(columns, rest.width);
    let taken = Rect { x: rest.x, y: rest.y, width, height: rest.height };
    rest.x = rest.x.saturating_add(width);
    rest.width = rest.width - width;
    taken
}

/// Takes columns off the right.
pub fn take_right(rest: &mut Rect, columns: u16) -> (taken: Rect)
    ensures
        taken == old(rest).right_part(columns),
        *final(rest) == old(rest).left_of(columns),
{
    let width: u16 = min_of(columns, rest.width);
    let taken = Rect {
        x: rest.x.saturating_add(rest.width - width),
        y: rest.y,
        width,
        height: rest.height,
    };
    rest.width = rest.width - width;
    taken
}

/// A right-hand column with a one-cell gap before it, taken only while the row
/// is at least `min_row` wide; otherwise an empty one.
pub fn column(rest: &mut Rect, columns: u16, min_row: u16) -> (taken: Rect)
    ensures
        if old(rest).width < min_row {
            taken == (Rect { width: 0, ..*old(rest) }) && *final(rest) == *old(rest)
        } else {
            taken == old(rest).right_part(columns) && *final(rest) == old(rest).left_of(
                columns,
            ).left_of(1)
        },
{
    if rest.width < min_row {
        return Rect { x: rest.x, y: rest.y, width: 0, height: rest.height };
    }
    let column = take_right(rest, columns);
    let _ = take_right(rest, 1);
    column
}

/// The row `y` of `area`, empty where it is outside.
pub fn row(area: Rect, y: u16) -> (row: Rect)
    ensures
        row == area.row_at(y),
{
    (Rect { x: area.x, y, width: area.width, height: 1 }).intersection(area)
}

/// A box in the middle of `area`, no larger than it.
pub fn centered_box(area: Rect, width: u16, height: u16) -> (centred: Rect)
    ensures
        centred == area.middle(width, height),
{
    let width: u16 = min_of(width, area.width);
    let height: u16 = min_of(height, area.height);
    Rect {
        x: area.x.saturating_add((area.width - width) / 2),
        y: area.y.saturating_add((area.height - height) / 2),
        width,
        height,
    }
}

/// What is taken off an area and what is left of it share no cell, and
/// together are the area.
pub proof fn parts_make_the_whole(area: Rect, columns: u16, point: Position)
    requires
        area.x + area.width <= u16::MAX,
    ensures
        area.covers(point) == (area.left_part(columns).covers(point) || area.right_of(
            columns,
        ).covers(point)),
        !(area.left_part(columns).covers(point) && area.right_of(columns).covers(point)),
        area.covers(point) == (area.right_part(columns).covers(point) || area.left_of(
            columns,
        ).covers(point)),
        !(area.right_part(columns).covers(point) && area.left_of(columns).covers(point)),
{
}

/// A box in the middle stays in its area.
pub proof fn middle_is_inside(area: Rect, width: u16, height: u16, point: Position)
    requires
        area.middle(width, height).covers(point),
    ensures
        area.covers(point),
{
}

} // verus!
