use vstd::prelude::*;

verus! {

/// A rectangle of text cells: column `x`, row `y`, `width` columns and `height` rows.
#[derive(Clone, Copy, Debug, PartialEq, Eq, Structural)]
pub struct CellArea {
    pub x: u16,
    pub y: u16,
    pub width: u16,
    pub height: u16,
}

/// `a + b`, saturated at `u16::MAX`.
pub open spec fn saturating_add_u16(a: u16, b: u16) -> u16 {
    if a + b > u16::MAX {
        u16::MAX
    } else {
        (a + b) as u16
    }
}

/// `a - b`, saturated at zero.
pub open spec fn saturating_sub_u16(a: u16, b: u16) -> u16 {
    if a < b {
        0
    } else {
        (a - b) as u16
    }
}

pub open spec fn max_u16(a: u16, b: u16) -> u16 {
    if a < b {
        b
    } else {
        a
    }
}

pub open spec fn min_u16(a: u16, b: u16) -> u16 {
    if a < b {
        a
    } else {
        b
    }
}

impl CellArea {
    /// First column past the area, saturated at `u16::MAX`.
    pub open spec fn right_edge(self) -> u16 {
        saturating_add_u16(self.x, self.width)
    }

    /// First row past the area, saturated at `u16::MAX`.
    pub open spec fn bottom_edge(self) -> u16 {
        saturating_add_u16(self.y, self.height)
    }

    /// Whether the cell at column `cx`, row `cy` lies inside the area.
    pub open spec fn holds_cell(self, cx: int, cy: int) -> bool {
        &&& self.x <= cx < self.right_edge()
        &&& self.y <= cy < self.bottom_edge()
    }

    /// True when the area covers no cell.
    pub fn is_empty(&self) -> (r: bool)
        ensures
            r == (self.width == 0 || self.height == 0),
    {
        self.width == 0 || self.height == 0
    }

    /// First column past the area, saturated at `u16::MAX`.
    pub fn right(&self) -> (r: u16)
        ensures
            r == self.right_edge(),
    {
        self.x.saturating_add(self.width)
    }

    /// First row past the area, saturated at `u16::MAX`.
    pub fn bottom(&self) -> (r: u16)
        ensures
            r == self.bottom_edge(),
    {
        self.y.saturating_add(self.height)
    }
}

/// The intersection of two cell areas as the layout library computes it: the larger
/// of the two origins, and the extent up to the smaller of the two far edges (no
/// extent when the far edge lies before the origin).
pub open spec fn intersection_of(a: CellArea, b: CellArea) -> CellArea {
    let x1 = max_u16(a.x, b.x);
    let y1 = max_u16(a.y, b.y);
    let x2 = min_u16(a.right_edge(), b.right_edge());
    let y2 = min_u16(a.bottom_edge(), b.bottom_edge());
    CellArea { x: x1, y: y1, width: saturating_sub_u16(x2, x1), height: saturating_sub_u16(y2, y1) }
}

/// Calls `ratatui::layout::Rect::intersection` on the two areas.  The contract
/// restates that method's body (maximum of the origins, minimum of the saturated far
/// edges, saturating differences for the extent).
#[verifier::external_body]
fn rect_intersection(a: CellArea, b: CellArea) -> (r: CellArea)
    ensures
        r == intersection_of(a, b),
{
    let ra = ratatui::layout::Rect { x: a.x, y: a.y, width: a.width, height: a.height };
    let rb = ratatui::layout::Rect { x: b.x, y: b.y, width: b.width, height: b.height };
    let r = ra.intersection(rb);
    CellArea { x: r.x, y: r.y, width: r.width, height: r.height }
}

/// The cells a widget blanks before painting: the part of its `area` that lies in
/// the buffer whose area is `buffer_area`.
pub fn fill_region(buffer_area: CellArea, area: CellArea) -> (r: CellArea)
    ensures
        r == intersection_of(buffer_area, area),
        forall|cx: int, cy: int|
            #[trigger] r.holds_cell(cx, cy) <==> (buffer_area.holds_cell(cx, cy) && area.holds_cell(
                cx,
                cy,
            )),
{
    let r = rect_intersection(buffer_area, area);
    proof {
        lemma_intersection_cells(buffer_area, area);
    }
    r
}

/// A cell lies in the intersection exactly when it lies in both areas.
pub proof fn lemma_intersection_cells(a: CellArea, b: CellArea)
    ensures
        forall|cx: int, cy: int|
            #[trigger] intersection_of(a, b).holds_cell(cx, cy) <==> (a.holds_cell(cx, cy)
                && b.holds_cell(cx, cy)),
{
}

/// Whether a WebGL drawing surface and cell size allow any overlay to be drawn: both
/// drawing-buffer dimensions and both cell dimensions must be positive.
pub fn webgl_surface_ready(canvas_width: i32, canvas_height: i32, cell_size: (i32, i32)) -> (r:
    bool)
    ensures
        r == (canvas_width > 0 && canvas_height > 0 && cell_size.0 > 0 && cell_size.1 > 0),
{
    !(canvas_width <= 0 || canvas_height <= 0 || cell_size.0 <= 0 || cell_size.1 <= 0)
}

} // verus!
