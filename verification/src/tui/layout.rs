//! How much fits: size tiers, the regions of a frame, and the rows of a list
//! that are visible.

use crate::tui::geometry::{inset, take_left, Rect};
use vstd::prelude::*;

verus! {

#[derive(Clone, Copy, Debug, PartialEq, Eq, Structural)]
pub enum Tier {
    Normal,
    Compact,
    Minimal,
    /// Too small for anything but a message.
    Resize,
}

pub const MIN_WIDTH: u16 = 30;

pub const MIN_HEIGHT: u16 = 8;

/// The rows of the spectrum.
pub const SPECTRUM_ROWS: u16 = 5;

/// The columns of the cover.
pub const COVER_COLUMNS: u16 = 14;

/// The tier of a screen of this size.
pub fn tier_for(width: u16, height: u16) -> (tier: Tier)
    ensures
        tier == if width < MIN_WIDTH || height < MIN_HEIGHT {
            Tier::Resize
        } else if width < 50 || height < 14 {
            Tier::Minimal
        } else if width < 80 || height < 24 {
            Tier::Compact
        } else {
            Tier::Normal
        },
{
    if width < MIN_WIDTH || height < MIN_HEIGHT {
        Tier::Resize
    } else if width < 50 || height < 14 {
        Tier::Minimal
    } else if width < 80 || height < 24 {
        Tier::Compact
    } else {
        Tier::Normal
    }
}

/// Where each part of a frame goes.
#[derive(Clone, Copy, Debug, PartialEq, Eq, Structural)]
pub struct Regions {
    pub player: Rect,
    pub status: Rect,
    pub info: Rect,
    pub cover: Option<Rect>,
    pub spectrum: Option<Rect>,
    pub transport: Rect,
    pub time: Rect,
    pub progress: Rect,
    pub queue: Rect,
    pub footer: Rect,
}

impl Rect {
    /// The topmost rows, as far as there are any.
    pub open spec fn top_part(self, rows: u16) -> Rect {
        Rect { height: crate::tui::geometry::smaller(rows, self.height), ..self }
    }

    /// What is left of the topmost rows.
    pub open spec fn below(self, rows: u16) -> Rect {
        let taken = crate::tui::geometry::smaller(rows, self.height);
        Rect {
            y: crate::tui::geometry::plus(self.y, taken),
            height: (self.height - taken) as u16,
            ..self
        }
    }
}

/// Takes rows off the top.
pub fn take_top(rest: &mut Rect, rows: u16) -> (taken: Rect)
    ensures
        taken == old(rest).top_part(rows),
        *final(rest) == old(rest).below(rows),
{
    let height: u16 = if rows <= rest.height {
        rows
    } else {
        rest.height
    };
    let taken = Rect { x: rest.x, y: rest.y, width: rest.width, height };
    rest.y = rest.y.saturating_add(height);
    rest.height = rest.height - height;
    taken
}

impl Rect {
    /// All rows but the last.
    pub open spec fn above_last(self) -> Rect {
        Rect { height: crate::tui::geometry::minus(self.height, 1), ..self }
    }

    /// The last row.
    pub open spec fn last_row(self) -> Rect {
        self.below(crate::tui::geometry::minus(self.height, 1))
    }
}

/// Stacks the parts of a frame: the status row, the information lines, the
/// transport row, the progress row or rows, the queue, and the footer. The
/// largest tier has the spectrum under the information lines and the cover
/// beside both.
pub fn regions(area: Rect, tier: Tier, info_lines: u16) -> (regions: Regions)
    ensures
        ({
            let body = area.above_last();
            let after_status = body.below(1);
            let tall = if tier == Tier::Normal {
                crate::tui::geometry::plus(info_lines, SPECTRUM_ROWS)
            } else {
                info_lines
            };
            let upper = after_status.top_part(tall);
            let beside = if tier == Tier::Normal {
                upper.right_of(COVER_COLUMNS).right_of(1)
            } else {
                upper
            };
            let after_upper = after_status.below(tall);
            let after_transport = after_upper.below(1);
            let shared = tier == Tier::Minimal;
            let after_time = after_transport.below(
                if shared {
                    0
                } else {
                    1
                },
            );
            &&& regions.player == area
            &&& regions.footer == area.last_row()
            &&& regions.status == body.top_part(1)
            &&& regions.info == beside.top_part(info_lines)
            &&& regions.cover == if tier == Tier::Normal {
                Some(upper.left_part(COVER_COLUMNS))
            } else {
                None
            }
            &&& regions.spectrum == if tier == Tier::Normal {
                Some(beside.below(info_lines))
            } else {
                None
            }
            &&& regions.transport == after_upper.top_part(1)
            &&& regions.progress == after_time.top_part(1)
            &&& regions.time == if shared {
                regions.progress
            } else {
                after_transport.top_part(1)
            }
            &&& regions.queue == after_time.below(1)
        }),
{
    let mut rest = Rect {
        x: area.x,
        y: area.y,
        width: area.width,
        height: area.height.saturating_sub(1),
    };
    let mut foot = area;
    let _ = take_top(&mut foot, area.height.saturating_sub(1));
    let status = take_top(&mut rest, 1);
    let tall: u16 = if tier == Tier::Normal {
        info_lines.saturating_add(SPECTRUM_ROWS)
    } else {
        info_lines
    };
    let mut upper = take_top(&mut rest, tall);
    let cover = if tier == Tier::Normal {
        let cover = take_left(&mut upper, COVER_COLUMNS);
        let _ = take_left(&mut upper, 1);
        Some(cover)
    } else {
        None
    };
    let info = take_top(&mut upper, info_lines);
    let spectrum = if tier == Tier::Normal {
        Some(upper)
    } else {
        None
    };
    let transport = take_top(&mut rest, 1);
    let shared: bool = tier == Tier::Minimal;
    let own = take_top(
        &mut rest,
        if shared {
            0
        } else {
            1
        },
    );
    let progress = take_top(&mut rest, 1);
    let time = if shared {
        progress
    } else {
        own
    };
    Regions {
        player: area,
        status,
        info,
        cover,
        spectrum,
        transport,
        time,
        progress,
        queue: rest,
        footer: foot,
    }
}

/// The inside of the queue's border.
pub fn queue_body(area: Rect) -> (body: Rect)
    ensures
        body == area.inside(),
{
    inset(area)
}

/// The first visible row: as scrolled, but never past the end, and never so
/// that the selected row is out of sight.
pub open spec fn first_visible(len: int, offset: int, selected: Option<int>, capacity: int) -> int {
    let last = if len > capacity {
        len - capacity
    } else {
        0
    };
    let start = if offset <= last {
        offset
    } else {
        last
    };
    match selected {
        Some(row) => if row < start {
            row
        } else if row >= start + capacity {
            row + 1 - capacity
        } else {
            start
        },
        None => start,
    }
}

/// The rows of a list that are visible, from the first to the one after the
/// last.
pub fn visible_rows(len: usize, offset: usize, selected: Option<usize>, capacity: usize) -> (rows: (
    usize,
    usize,
))
    requires
        selected matches Some(row) ==> row < len,
    ensures
        capacity == 0 ==> rows.0 == rows.1,
        capacity > 0 ==> rows.0 == first_visible(
            len as int,
            offset as int,
            match selected {
                Some(row) => Some(row as int),
                None => None,
            },
            capacity as int,
        ) && rows.1 == if rows.0 + capacity <= len {
            rows.0 + capacity
        } else {
            len as int
        },
        rows.0 <= rows.1 <= len,
{
    if capacity == 0 {
        return (0, 0);
    }
    let last: usize = len.saturating_sub(capacity);
    let start: usize = if offset <= last {
        offset
    } else {
        last
    };
    let first: usize = match selected {
        Some(row) => if row < start {
            row
        } else if row - start >= capacity {
            row - (capacity - 1)
        } else {
            start
        },
        None => start,
    };
    let end: usize = if capacity <= len - first {
        first + capacity
    } else {
        len
    };
    (first, end)
}

/// The selected row is always visible.
pub proof fn selected_row_is_visible(len: int, offset: int, row: int, capacity: int)
    requires
        0 <= row < len,
        0 <= offset,
        0 < capacity,
    ensures
        first_visible(len, offset, Some(row), capacity) <= row < first_visible(
            len,
            offset,
            Some(row),
            capacity,
        ) + capacity,
        0 <= first_visible(len, offset, Some(row), capacity) < len,
{
}

} // verus!
