//! The frameless window a user drags and resizes over the screen to choose a
//! custom input area.

use vstd::prelude::*;

verus! {

/// Width of the window's border in which dragging resizes instead of moving.
pub const BORDER: i32 = 30;

/// A window's position and size in screen coordinates.
#[derive(Debug, Clone, Copy, PartialEq, Eq, Structural)]
pub struct WinRect {
    pub x: i32,
    pub y: i32,
    pub w: i32,
    pub h: i32,
}

/// Which part of the window the pointer is over.
///
/// `Edge(horizontal, first)`: on a left/right edge when `horizontal`, else on
/// a top/bottom edge; `first` picks left (resp. top). `Corner(left, top)`.
#[derive(Debug, Clone, Copy, PartialEq, Eq, Structural)]
pub enum MouseFlags {
    All,
    Edge(bool, bool),
    Corner(bool, bool),
}

/// Mouse cursor shapes the window shows.
#[derive(Debug, Clone, Copy, PartialEq, Eq, Structural)]
pub enum CursorShape {
    Default,
    Move,
    W,
    E,
    N,
    S,
    NWSE,
    NESW,
}

pub open spec fn abs_int(v: int) -> int {
    if v < 0 {
        -v
    } else {
        v
    }
}

pub open spec fn min_int(a: int, b: int) -> int {
    if a <= b {
        a
    } else {
        b
    }
}

pub open spec fn fits_i32(v: int) -> bool {
    i32::MIN <= v <= i32::MAX
}

/// The distances the flags are computed from fit in `i32`, as the window
/// system's coordinates do.
pub open spec fn flags_defined(win: WinRect, x: i32, y: i32) -> bool {
    &&& fits_i32(win.x + win.w)
    &&& fits_i32(win.y + win.h)
    &&& fits_i32(abs_int(win.x - x))
    &&& fits_i32(abs_int(win.y - y))
    &&& fits_i32(abs_int(win.x + win.w - x))
    &&& fits_i32(abs_int(win.y + win.h - y))
}

/// Within `BORDER` of a corner the pointer resizes at that corner; within
/// `BORDER` of an edge it resizes at that edge (the nearer direction wins,
/// horizontal on a tie); elsewhere it moves the window.
pub open spec fn spec_mouse_flags(win: WinRect, x: int, y: int) -> MouseFlags {
    let dx0 = abs_int(win.x - x);
    let dy0 = abs_int(win.y - y);
    let dx1 = abs_int(win.x + win.w - x);
    let dy1 = abs_int(win.y + win.h - y);
    let dx = min_int(dx0, dx1);
    let dy = min_int(dy0, dy1);
    if min_int(dx, dy) <= BORDER {
        if dx <= BORDER && dy <= BORDER {
            MouseFlags::Corner(dx0 <= dx1, dy0 <= dy1)
        } else {
            MouseFlags::Edge(dx <= dy, if dx <= dy { dx0 <= dx1 } else { dy0 <= dy1 })
        }
    } else {
        MouseFlags::All
    }
}

fn abs_diff(a: i32, b: i32) -> (r: i32)
    requires
        fits_i32(abs_int(a - b)),
    ensures
        r == abs_int(a - b),
{
    if a >= b {
        a - b
    } else {
        b - a
    }
}

/// What dragging from screen point `(x, y)` does to the window `win`.
pub fn get_mouse_flags(win: WinRect, x: i32, y: i32) -> (f: MouseFlags)
    requires
        flags_defined(win, x, y),
    ensures
        f == spec_mouse_flags(win, x as int, y as int),
{
    let dx0 = abs_diff(win.x, x);
    let dy0 = abs_diff(win.y, y);
    let dx1 = abs_diff(win.x + win.w, x);
    let dy1 = abs_diff(win.y + win.h, y);
    let dx = if dx0 <= dx1 {
        dx0
    } else {
        dx1
    };
    let dy = if dy0 <= dy1 {
        dy0
    } else {
        dy1
    };
    let d = if dx <= dy {
        dx
    } else {
        dy
    };
    if d <= BORDER {
        if dx <= BORDER && dy <= BORDER {
            MouseFlags::Corner(dx0 <= dx1, dy0 <= dy1)
        } else {
            MouseFlags::Edge(dx <= dy, if dx <= dy { dx0 <= dx1 } else { dy0 <= dy1 })
        }
    } else {
        MouseFlags::All
    }
}

pub open spec fn spec_cursor(flags: Option<MouseFlags>) -> CursorShape {
    match flags {
        Some(MouseFlags::All) => CursorShape::Move,
        Some(MouseFlags::Edge(bx, by)) => if bx {
            if by {
                CursorShape::W
            } else {
                CursorShape::E
            }
        } else {
            if by {
                CursorShape::N
            } else {
                CursorShape::S
            }
        },
        Some(MouseFlags::Corner(bx, by)) => if bx == by {
            CursorShape::NWSE
        } else {
            CursorShape::NESW
        },
        None => CursorShape::Default,
    }
}

/// The cursor to show over a part of the window: a move cursor inside, a
/// resize arrow along the edge or corner under the pointer.
pub fn cursor_for(flags: Option<MouseFlags>) -> (c: CursorShape)
    ensures
        c == spec_cursor(flags),
{
    match flags {
        Some(MouseFlags::All) => CursorShape::Move,
        Some(MouseFlags::Edge(bx, by)) => match (bx, by) {
            (true, true) => CursorShape::W,
            (true, false) => CursorShape::E,
            (false, true) => CursorShape::N,
            (false, false) => CursorShape::S,
        },
        Some(MouseFlags::Corner(bx, by)) => match (bx, by) {
            (true, true) => CursorShape::NWSE,
            (true, false) => CursorShape::NESW,
            (false, true) => CursorShape::NESW,
            (false, false) => CursorShape::NWSE,
        },
        None => CursorShape::Default,
    }
}

/// The window a drag by `(dx, dy)` leaves, from the window `start` it began
/// on, as a model over integers.
pub open spec fn spec_dragged(flags: MouseFlags, start: WinRect, dx: int, dy: int) -> (
    int,
    int,
    int,
    int,
) {
    let (x, y, w, h) = (start.x as int, start.y as int, start.w as int, start.h as int);
    match flags {
        MouseFlags::All => (x + dx, y + dy, w, h),
        MouseFlags::Edge(bx, by) => if bx {
            if by {
                (x + dx, y, w - dx, h)
            } else {
                (x, y, w + dx, h)
            }
        } else {
            if by {
                (x, y + dy, w, h - dy)
            } else {
                (x, y, w, h + dy)
            }
        },
        MouseFlags::Corner(bx, by) => (
            if bx {
                x + dx
            } else {
                x
            },
            if by {
                y + dy
            } else {
                y
            },
            if bx {
                w - dx
            } else {
                w + dx
            },
            if by {
                h - dy
            } else {
                h + dy
            },
        ),
    }
}

pub open spec fn rect_of(t: (int, int, int, int)) -> bool {
    fits_i32(t.0) && fits_i32(t.1) && fits_i32(t.2) && fits_i32(t.3)
}

/// A drag in progress: where it started and what it does.
#[derive(Debug, Clone, Copy, PartialEq, Eq, Structural)]
pub struct DragState {
    pub flags: MouseFlags,
    pub x: i32,
    pub y: i32,
    pub start: WinRect,
}

impl DragState {
    /// The pointer was pressed at screen point `(x, y)` over `win`.
    pub fn push(win: WinRect, x: i32, y: i32) -> (d: Self)
        requires
            flags_defined(win, x, y),
        ensures
            d == (DragState {
                flags: spec_mouse_flags(win, x as int, y as int),
                x,
                y,
                start: win,
            }),
    {
        DragState { flags: get_mouse_flags(win, x, y), x, y, start: win }
    }

    /// Where the window goes when the pointer is dragged to `(x, y)`: moved
    /// as a whole, or resized at the edge or corner the drag began on.
    pub fn drag(&self, x: i32, y: i32) -> (r: WinRect)
        requires
            fits_i32(x - self.x),
            fits_i32(y - self.y),
            rect_of(spec_dragged(self.flags, self.start, x - self.x, y - self.y)),
        ensures
            (r.x as int, r.y as int, r.w as int, r.h as int) == spec_dragged(
                self.flags,
                self.start,
                x - self.x,
                y - self.y,
            ),
    {
        let dx = x - self.x;
        let dy = y - self.y;
        let s = self.start;
        match self.flags {
            MouseFlags::All => WinRect { x: s.x + dx, y: s.y + dy, w: s.w, h: s.h },
            MouseFlags::Edge(bx, by) => match (bx, by) {
                (true, true) => WinRect { x: s.x + dx, y: s.y, w: s.w - dx, h: s.h },
                (true, false) => WinRect { x: s.x, y: s.y, w: s.w + dx, h: s.h },
                (false, true) => WinRect { x: s.x, y: s.y + dy, w: s.w, h: s.h - dy },
                (false, false) => WinRect { x: s.x, y: s.y, w: s.w, h: s.h + dy },
            },
            MouseFlags::Corner(bx, by) => match (bx, by) {
                (true, true) => WinRect { x: s.x + dx, y: s.y + dy, w: s.w - dx, h: s.h - dy },
                (true, false) => WinRect { x: s.x + dx, y: s.y, w: s.w - dx, h: s.h + dy },
                (false, true) => WinRect { x: s.x, y: s.y + dy, w: s.w + dx, h: s.h - dy },
                (false, false) => WinRect { x: s.x, y: s.y, w: s.w + dx, h: s.h + dy },
            },
        }
    }
}

/// Dragging back to the point where the drag began puts the window back
/// where it was.
pub proof fn drag_to_start_restores_window(flags: MouseFlags, start: WinRect)
    ensures
        spec_dragged(flags, start, 0, 0) == (
            start.x as int,
            start.y as int,
            start.w as int,
            start.h as int,
        ),
{
}

/// Moving keeps the size; resizing at a left (top) edge or corner keeps the
/// right (bottom) edge where it was, and resizing at a right (bottom) one
/// keeps the left (top) edge.
pub proof fn drag_keeps_opposite_edges(flags: MouseFlags, start: WinRect, dx: int, dy: int)
    ensures
        ({
            let r = spec_dragged(flags, start, dx, dy);
            match flags {
                MouseFlags::All => r.2 == start.w && r.3 == start.h,
                MouseFlags::Edge(true, true) => r.0 + r.2 == start.x + start.w && r.1 == start.y
                    && r.3 == start.h,
                MouseFlags::Edge(true, false) => r.0 == start.x && r.1 == start.y && r.3
                    == start.h,
                MouseFlags::Edge(false, true) => r.1 + r.3 == start.y + start.h && r.0 == start.x
                    && r.2 == start.w,
                MouseFlags::Edge(false, false) => r.0 == start.x && r.1 == start.y && r.2
                    == start.w,
                MouseFlags::Corner(bx, by) => (if bx {
                    r.0 + r.2 == start.x + start.w
                } else {
                    r.0 == start.x
                }) && (if by {
                    r.1 + r.3 == start.y + start.h
                } else {
                    r.1 == start.y
                }),
            }
        }),
{
}

/// The full workspace spanned by the screens' work areas, as the window
/// system reports them: left and top are the smallest coordinates (at most
/// `0`), and the third and fourth values the largest right and bottom
/// coordinates (at least `1`).
pub open spec fn spec_full_workspace(areas: Seq<WinRect>) -> (int, int, int, int)
    decreases areas.len(),
{
    if areas.len() == 0 {
        (0, 0, 1, 1)
    } else {
        let r = spec_full_workspace(areas.drop_last());
        let a = areas.last();
        (
            if a.x < r.0 {
                a.x as int
            } else {
                r.0
            },
            if a.y < r.1 {
                a.y as int
            } else {
                r.1
            },
            if a.x + a.w > r.2 {
                a.x + a.w
            } else {
                r.2
            },
            if a.y + a.h > r.3 {
                a.y + a.h
            } else {
                r.3
            },
        )
    }
}

pub open spec fn areas_fit(areas: Seq<WinRect>) -> bool {
    forall|i: int|
        0 <= i < areas.len() ==> fits_i32(#[trigger] areas[i].x + areas[i].w) && fits_i32(
            areas[i].y + areas[i].h,
        )
}

proof fn lemma_full_workspace_fits(areas: Seq<WinRect>)
    requires
        areas_fit(areas),
    ensures
        rect_of(spec_full_workspace(areas)),
        spec_full_workspace(areas).0 <= 0,
        spec_full_workspace(areas).1 <= 0,
        spec_full_workspace(areas).2 >= 1,
        spec_full_workspace(areas).3 >= 1,
    decreases areas.len(),
{
    if areas.len() > 0 {
        assert(areas_fit(areas.drop_last())) by {
            assert forall|i: int| 0 <= i < areas.drop_last().len() implies fits_i32(
                #[trigger] areas.drop_last()[i].x + areas.drop_last()[i].w,
            ) && fits_i32(areas.drop_last()[i].y + areas.drop_last()[i].h) by {
                assert(areas.drop_last()[i] == areas[i]);
            }
        }
        lemma_full_workspace_fits(areas.drop_last());
        assert(fits_i32(areas[areas.len() - 1].x + areas[areas.len() - 1].w));
    }
}

/// The full workspace reaches at least as far as every work area in each
/// direction.
pub proof fn full_workspace_covers_every_area(areas: Seq<WinRect>, k: int)
    requires
        0 <= k < areas.len(),
    ensures
        spec_full_workspace(areas).0 <= areas[k].x,
        spec_full_workspace(areas).1 <= areas[k].y,
        spec_full_workspace(areas).2 >= areas[k].x + areas[k].w,
        spec_full_workspace(areas).3 >= areas[k].y + areas[k].h,
    decreases areas.len(),
{
    if k < areas.len() - 1 {
        full_workspace_covers_every_area(areas.drop_last(), k);
        assert(areas.drop_last()[k] == areas[k]);
    }
}

/// The rectangle spanning all work areas (see `spec_full_workspace`).
pub fn full_workspace_rect(areas: &[WinRect]) -> (r: WinRect)
    requires
        areas_fit(areas@),
    ensures
        (r.x as int, r.y as int, r.w as int, r.h as int) == spec_full_workspace(areas@),
{
    let mut r = WinRect { x: 0, y: 0, w: 1, h: 1 };
    let mut i: usize = 0;
    while i < areas.len()
        invariant
            i <= areas@.len(),
            areas_fit(areas@),
            (r.x as int, r.y as int, r.w as int, r.h as int) == spec_full_workspace(
                areas@.take(i as int),
            ),
        decreases areas@.len() - i,
    {
        let a = areas[i];
        assert(areas@.take(i + 1).drop_last() =~= areas@.take(i as int));
        assert(fits_i32(areas@[i as int].x + areas@[i as int].w));
        if a.x < r.x {
            r.x = a.x;
        }
        if a.y < r.y {
            r.y = a.y;
        }
        if a.x + a.w > r.w {
            r.w = a.x + a.w;
        }
        if a.y + a.h > r.h {
            r.h = a.y + a.h;
        }
        i = i + 1;
    }
    assert(areas@.take(areas@.len() as int) =~= areas@);
    r
}

/// What the selection in a "Map ... from:" choice stands for.
#[derive(Debug, Clone, Copy, PartialEq, Eq, Structural)]
pub enum AreaChoice {
    /// No mapping for this kind of pointer.
    NoArea,
    /// The workspace with this index (the full workspace first, then each screen).
    Workspace(usize),
    /// A value the choice should not hold.
    Unexpected,
}

/// Entry `0` is "None", entry `v` for `1 <= v <= n_workspaces` the workspace
/// `v - 1`.
pub fn area_choice(value: i32, n_workspaces: usize) -> (c: AreaChoice)
    ensures
        value == 0 ==> c == AreaChoice::NoArea,
        1 <= value <= n_workspaces ==> c == AreaChoice::Workspace((value - 1) as usize),
        (value < 0 || value > n_workspaces) ==> c == AreaChoice::Unexpected,
{
    if value == 0 {
        AreaChoice::NoArea
    } else if value >= 1 && (value as usize) <= n_workspaces {
        AreaChoice::Workspace((value - 1) as usize)
    } else {
        AreaChoice::Unexpected
    }
}

/// A choice keeps its selection when its entries are rebuilt for
/// `n_screens` screens if the selection still names an entry ("None", "Full
/// Workspace" and one per screen); otherwise it falls back to "None".
pub fn retained_choice(value: i32, n_screens: usize) -> (v: i32)
    ensures
        v == (if 0 <= value && value < 2 + n_screens {
            value
        } else {
            0
        }),
{
    if value < 0 {
        0
    } else if (value as usize) < 2 || (value as usize) - 2 < n_screens {
        value
    } else {
        0
    }
}

/// Half of `v`, rounded toward zero as integer division does.
pub open spec fn half_toward_zero(v: int) -> int {
    if v >= 0 {
        v / 2
    } else {
        -((-v) / 2)
    }
}

/// Position that centres a `size` by `size` window on a screen.
pub fn centered_position(screen: WinRect, size: i32) -> (p: (i32, i32))
    requires
        fits_i32(screen.w - size),
        fits_i32(screen.h - size),
        fits_i32(screen.x + half_toward_zero(screen.w - size)),
        fits_i32(screen.y + half_toward_zero(screen.h - size)),
    ensures
        p.0 == screen.x + half_toward_zero(screen.w - size),
        p.1 == screen.y + half_toward_zero(screen.h - size),
{
    let dw = screen.w - size;
    let dh = screen.h - size;
    (screen.x + dw / 2, screen.y + dh / 2)
}

} // verus!
