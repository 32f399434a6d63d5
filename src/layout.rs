//! Where things go on the screen: the gauge, the payment fields, the
//! payment table, the popups, and the terminal cursor inside the focused
//! field. The areas come from ratatui's layout solver.

use vstd::prelude::*;
use ratatui::layout::{Constraint, Direction, Layout, Rect as TuiRect};
use crate::field::{visual_cursor_of, visual_scroll_of, FieldBuffer};
use crate::session::{App, InputLocation, InputMode};

verus! {

/// A rectangle of terminal cells.
#[derive(Clone, Copy, Debug, PartialEq, Eq, Structural)]
pub struct Rect {
    pub x: u16,
    pub y: u16,
    pub width: u16,
    pub height: u16,
}

/// The direction an area is cut in.
#[derive(Clone, Copy, Debug, PartialEq, Eq, Structural)]
pub enum Axis {
    /// Cut into rows, top to bottom.
    Vertical,
    /// Cut into columns, left to right.
    Horizontal,
}

/// How much of an area one piece asks for.
#[derive(Clone, Copy, Debug, PartialEq, Eq, Structural)]
pub enum Share {
    Percentage(u16),
    Fill(u16),
    Min(u16),
    Length(u16),
}

/// The far edge of a span that starts at `start` and is `size` cells long,
/// kept on the screen.
pub open spec fn span_end(start: u16, size: u16) -> int {
    min_u16(start + size)
}

/// `piece` is a cut of `area` along `axis`: it spans the whole of `area`
/// across the axis and lies within it along the axis.
pub open spec fn piece_of(axis: Axis, piece: Rect, area: Rect) -> bool {
    match axis {
        Axis::Vertical => {
            &&& piece.x == area.x
            &&& piece.width == area.width
            &&& area.y <= piece.y
            &&& span_end(piece.y, piece.height) <= span_end(area.y, area.height)
        },
        Axis::Horizontal => {
            &&& piece.y == area.y
            &&& piece.height == area.height
            &&& area.x <= piece.x
            &&& span_end(piece.x, piece.width) <= span_end(area.x, area.width)
        },
    }
}

/// `inner` lies within `outer`.
pub open spec fn inside(inner: Rect, outer: Rect) -> bool {
    &&& outer.x <= inner.x
    &&& outer.y <= inner.y
    &&& span_end(inner.x, inner.width) <= span_end(outer.x, outer.width)
    &&& span_end(inner.y, inner.height) <= span_end(outer.y, outer.height)
}

/// Where `r` starts along `axis`.
pub open spec fn axis_start(axis: Axis, r: Rect) -> int {
    match axis {
        Axis::Vertical => r.y as int,
        Axis::Horizontal => r.x as int,
    }
}

/// How long `r` is along `axis`.
pub open spec fn axis_len(axis: Axis, r: Rect) -> int {
    match axis {
        Axis::Vertical => r.height as int,
        Axis::Horizontal => r.width as int,
    }
}

pub open spec fn percent_of(s: Share) -> int {
    match s {
        Share::Percentage(p) => p as int,
        _ => 0,
    }
}

/// The percentages asked for by the first `i` shares.
pub open spec fn percent_before(shares: Seq<Share>, i: int) -> int
    decreases i,
{
    if i <= 0 {
        0
    } else {
        percent_before(shares, i - 1) + percent_of(shares[i - 1])
    }
}

/// Every share is a percentage and together they ask for at most the whole.
pub open spec fn percentages_fit(shares: Seq<Share>) -> bool {
    &&& forall|i: int| 0 <= i < shares.len() ==> #[trigger] shares[i] is Percentage
    &&& percent_before(shares, shares.len() as int) <= 100
}

/// The cell edge `b` is within half a cell of the exact position `s`
/// percent of the way along a span starting at `a` and `len` cells long.
pub open spec fn near(b: int, a: int, len: int, s: int) -> bool {
    -50 <= 100 * b - (100 * a + len * s) <= 50
}

/// The area ends before the edge of the screen along `axis`.
pub open spec fn fits_screen(axis: Axis, area: Rect) -> bool {
    axis_start(axis, area) + axis_len(axis, area) <= u16::MAX
}

/// Relies on `ratatui::layout::Layout::split`: one area per constraint, in
/// the order of the constraints; each spans the whole area across the
/// direction of the cut (`changes_to_rects`) and, as the solver's required
/// constraints hold every variable between the area's start and end, lies
/// within the area along it. When every constraint is a percentage and they
/// sum to at most a hundred, the default `Flex::Start` layout can meet them
/// all: the first spacer is empty, the inner spacers are empty at a strength
/// above the percentages', and only the last spacer, at the weak `GROW`
/// strength, takes what is left. Each piece then starts and ends at its exact
/// position rounded to the nearest cell (`changes_to_rects`). Otherwise which
/// sizes the solver picks is left open.
#[verifier::external_body]
fn split_area(area: Rect, axis: Axis, shares: &Vec<Share>) -> (r: Vec<Rect>)
    ensures
        r@.len() == shares@.len(),
        forall|i: int| 0 <= i < r@.len() ==> piece_of(axis, #[trigger] r@[i], area),
        percentages_fit(shares@) && fits_screen(axis, area) ==> forall|i: int|
            0 <= i < r@.len() ==> near(
                axis_start(axis, #[trigger] r@[i]),
                axis_start(axis, area),
                axis_len(axis, area),
                percent_before(shares@, i),
            ) && near(
                axis_start(axis, r@[i]) + axis_len(axis, r@[i]),
                axis_start(axis, area),
                axis_len(axis, area),
                percent_before(shares@, i + 1),
            ),
{
    let direction = match axis {
        Axis::Vertical => Direction::Vertical,
        Axis::Horizontal => Direction::Horizontal,
    };
    let constraints = shares.iter().map(|s| match *s {
        Share::Percentage(v) => Constraint::Percentage(v),
        Share::Fill(v) => Constraint::Fill(v),
        Share::Min(v) => Constraint::Min(v),
        Share::Length(v) => Constraint::Length(v),
    });
    let tui_area = TuiRect { x: area.x, y: area.y, width: area.width, height: area.height };
    let areas = Layout::default().direction(direction).constraints(constraints).split(tui_area);
    areas.iter().map(|a| Rect { x: a.x, y: a.y, width: a.width, height: a.height }).collect()
}

/// Three pieces: the middle one takes `p` percent, the others share the rest.
pub open spec fn thirds(p: u16) -> Seq<Share> {
    seq![
        Share::Percentage(((100 - p) / 2) as u16),
        Share::Percentage(p),
        Share::Percentage(((100 - p) / 2) as u16),
    ]
}

fn thirds_vec(p: u16) -> (r: Vec<Share>)
    requires
        p <= 100,
    ensures
        r@ == thirds(p),
{
    let side = (100 - p) / 2;
    let mut v: Vec<Share> = Vec::new();
    v.push(Share::Percentage(side));
    v.push(Share::Percentage(p));
    v.push(Share::Percentage(side));
    assert(v@ =~= thirds(p));
    v
}

/// The middle band of `percent_y` percent of the height of `r`, then within
/// it the middle band of `percent_x` percent of the width. Each edge lies
/// within half a cell of its exact position: the band starts
/// `(100 - percent) / 2` percent of the way along and ends `percent` percent
/// later. So each side is within a cell of its percentage, and for an even
/// percentage the two margins differ by at most a cell.
pub fn centered_rect(percent_x: u16, percent_y: u16, r: Rect) -> (c: Rect)
    requires
        percent_x <= 100,
        percent_y <= 100,
    ensures
        inside(c, r),
        r.x + r.width <= u16::MAX ==> near(c.x as int, r.x as int, r.width as int, (100 - percent_x) / 2)
            && near(
            c.x + c.width,
            r.x as int,
            r.width as int,
            (100 - percent_x) / 2 + percent_x,
        ) && -100 <= 100 * c.width - r.width * percent_x <= 100,
        r.y + r.height <= u16::MAX ==> near(c.y as int, r.y as int, r.height as int, (100 - percent_y) / 2)
            && near(
            c.y + c.height,
            r.y as int,
            r.height as int,
            (100 - percent_y) / 2 + percent_y,
        ) && -100 <= 100 * c.height - r.height * percent_y <= 100,
        r.x + r.width <= u16::MAX && percent_x % 2 == 0 ==> -1 <= (c.x - r.x) - (r.x + r.width - (c.x
            + c.width)) <= 1,
        r.y + r.height <= u16::MAX && percent_y % 2 == 0 ==> -1 <= (c.y - r.y) - (r.y + r.height - (c.y
            + c.height)) <= 1,
{
    let rows = split_area(r, Axis::Vertical, &thirds_vec(percent_y));
    let cols = split_area(rows[1], Axis::Horizontal, &thirds_vec(percent_x));
    assert(piece_of(Axis::Vertical, rows@[1], r));
    assert(piece_of(Axis::Horizontal, cols@[1], rows@[1]));
    proof {
        lemma_thirds_fit(percent_y);
        lemma_thirds_fit(percent_x);
        let c = cols@[1];
        let qx = (100 - percent_x) / 2;
        let qy = (100 - percent_y) / 2;
        if r.x + r.width <= u16::MAX {
            assert(fits_screen(Axis::Horizontal, rows@[1]));
            assert(near(axis_start(Axis::Horizontal, cols@[1]), r.x as int, r.width as int, qx));
            assert(r.width * (qx + percent_x) == r.width * qx + r.width * percent_x)
                by (nonlinear_arith);
            if percent_x % 2 == 0 {
                assert(r.width * (qx + percent_x) + r.width * qx == r.width * 100)
                    by (nonlinear_arith)
                    requires 2 * qx + percent_x == 100;
            }
        }
        if r.y + r.height <= u16::MAX {
            assert(fits_screen(Axis::Vertical, r));
            assert(near(axis_start(Axis::Vertical, rows@[1]), r.y as int, r.height as int, qy));
            assert(r.height * (qy + percent_y) == r.height * qy + r.height * percent_y)
                by (nonlinear_arith);
            if percent_y % 2 == 0 {
                assert(r.height * (qy + percent_y) + r.height * qy == r.height * 100)
                    by (nonlinear_arith)
                    requires 2 * qy + percent_y == 100;
            }
        }
    }
    cols[1]
}

proof fn lemma_thirds_fit(p: u16)
    requires
        p <= 100,
    ensures
        percentages_fit(thirds(p)),
        percent_before(thirds(p), 1) == (100 - p) / 2,
        percent_before(thirds(p), 2) == (100 - p) / 2 + p,
{
    let t = thirds(p);
    assert(percent_before(t, 0) == 0);
    assert(percent_before(t, 1) == percent_of(t[0]));
    assert(percent_before(t, 2) == percent_before(t, 1) + percent_of(t[1]));
    assert(percent_before(t, 3) == percent_before(t, 2) + percent_of(t[2]));
}

/// A popup box inside `outer`: centred, then a five-row band, centred again.
fn popup_box(outer: Rect) -> (r: Rect)
    ensures
        inside(r, outer),
{
    let c = centered_rect(50, 50, outer);
    let mut shares: Vec<Share> = Vec::new();
    shares.push(Share::Fill(1));
    shares.push(Share::Length(5));
    shares.push(Share::Fill(1));
    let band = split_area(c, Axis::Vertical, &shares);
    assert(piece_of(Axis::Vertical, band@[1], c));
    centered_rect(50, 50, band[1])
}

pub open spec fn min_u16(x: int) -> int {
    if x <= u16::MAX {
        x
    } else {
        u16::MAX as int
    }
}

/// Visible text columns of a bordered field `width` cells wide, one cell
/// kept free for the cursor.
pub open spec fn text_width(width: u16) -> nat {
    if width < 3 {
        0
    } else {
        (width - 3) as nat
    }
}

/// Where the terminal cursor goes for a field drawn in `rect`: one row in,
/// and one column in plus the cursor's display column less what is scrolled
/// out, never past the visible text width, kept on the screen.
pub open spec fn cursor_of(rect: Rect, buf: FieldBuffer) -> (u16, u16) {
    let scroll = visual_scroll_of(buf.text(), buf.cursor_spec(), text_width(rect.width));
    let vc = visual_cursor_of(buf.text(), buf.cursor_spec());
    let shown: int = if vc > scroll {
        vc - scroll
    } else {
        0
    };
    let x: int = if shown <= text_width(rect.width) {
        shown
    } else {
        text_width(rect.width) as int
    };
    (min_u16(rect.x + x + 1) as u16, min_u16(rect.y + 1) as u16)
}

pub fn field_cursor(rect: Rect, buf: &FieldBuffer) -> (r: (u16, u16))
    ensures
        r == cursor_of(rect, *buf),
{
    let width: usize = if rect.width < 3 {
        0
    } else {
        (rect.width - 3) as usize
    };
    let scroll = buf.visual_scroll(width);
    let vc = buf.visual_cursor();
    let shown: usize = if vc > scroll {
        vc - scroll
    } else {
        0
    };
    let x: usize = if shown <= width {
        shown
    } else {
        width
    };
    let col: u16 = if x >= 65535 || rect.x as usize + x + 1 > 65535 {
        65535
    } else {
        (rect.x as usize + x + 1) as u16
    };
    let row: u16 = if rect.y == 65535 {
        65535
    } else {
        rect.y + 1
    };
    (col, row)
}

/// Everything the screen shows, and where.
#[derive(Clone, Copy, Debug)]
pub struct ScreenPlan {
    pub gauge: Rect,
    pub kind_field: Rect,
    pub amount_field: Rect,
    pub table: Rect,
    /// The deletion popup, while deleting.
    pub deletion: Option<Rect>,
    /// The new budget's amount and month fields, while creating one.
    pub new_budget: Option<(Rect, Rect)>,
    /// The terminal cursor, while a field has the keyboard.
    pub cursor: Option<(u16, u16)>,
}

impl App {
    /// The screen built from the pieces the layout solver cut: the gauge,
    /// the two payment fields and the table of the main view, the deletion
    /// popup, and the new budget's two fields.
    pub open spec fn plan_of(
        self,
        gauge: Rect,
        kind_field: Rect,
        amount_field: Rect,
        table: Rect,
        deletion: Rect,
        budget_amount: Rect,
        budget_month: Rect,
    ) -> ScreenPlan {
        ScreenPlan {
            gauge,
            kind_field,
            amount_field,
            table,
            deletion: if self.mode is Deleting {
                Some(deletion)
            } else {
                None
            },
            new_budget: if self.mode is NewBudget {
                Some((budget_amount, budget_month))
            } else {
                None
            },
            cursor: match self.mode {
                InputMode::Normal => None,
                InputMode::Editing => if self.location is Type {
                    Some(cursor_of(kind_field, self.payment_input.0))
                } else {
                    Some(cursor_of(amount_field, self.payment_input.1))
                },
                InputMode::Deleting => Some(cursor_of(deletion, self.deletion_id)),
                InputMode::NewBudget => if self.location is Budget {
                    Some(cursor_of(budget_amount, self.new_budget.0))
                } else {
                    Some(cursor_of(budget_month, self.new_budget.1))
                },
            },
        }
    }

    /// Builds the screen from the pieces the layout solver cut.
    pub fn plan_screen(
        &self,
        gauge: Rect,
        kind_field: Rect,
        amount_field: Rect,
        table: Rect,
        deletion: Rect,
        budget_amount: Rect,
        budget_month: Rect,
    ) -> (r: ScreenPlan)
        ensures
            r == self.plan_of(
                gauge,
                kind_field,
                amount_field,
                table,
                deletion,
                budget_amount,
                budget_month,
            ),
    {
        let cursor = match self.mode {
            InputMode::Normal => None,
            InputMode::Editing => match self.location {
                InputLocation::Type => Some(field_cursor(kind_field, &self.payment_input.0)),
                _ => Some(field_cursor(amount_field, &self.payment_input.1)),
            },
            InputMode::Deleting => Some(field_cursor(deletion, &self.deletion_id)),
            InputMode::NewBudget => match self.location {
                InputLocation::Budget => Some(field_cursor(budget_amount, &self.new_budget.0)),
                _ => Some(field_cursor(budget_month, &self.new_budget.1)),
            },
        };
        ScreenPlan {
            gauge,
            kind_field,
            amount_field,
            table,
            deletion: if self.mode == InputMode::Deleting {
                Some(deletion)
            } else {
                None
            },
            new_budget: if self.mode == InputMode::NewBudget {
                Some((budget_amount, budget_month))
            } else {
                None
            },
            cursor,
        }
    }

    /// The terminal cursor of `r` is in the focused field, placed by
    /// `cursor_of`, and there is none in the main view.
    pub open spec fn cursor_placed(self, r: ScreenPlan) -> bool {
        match self.mode {
            InputMode::Normal => r.cursor is None,
            InputMode::Editing => r.cursor == Some(
                if self.location is Type {
                    cursor_of(r.kind_field, self.payment_input.0)
                } else {
                    cursor_of(r.amount_field, self.payment_input.1)
                },
            ),
            InputMode::Deleting => r.deletion matches Some(d) && r.cursor == Some(
                cursor_of(d, self.deletion_id),
            ),
            InputMode::NewBudget => r.new_budget matches Some(f) && r.cursor == Some(
                if self.location is Budget {
                    cursor_of(f.0, self.new_budget.0)
                } else {
                    cursor_of(f.1, self.new_budget.1)
                },
            ),
        }
    }

    /// Lays the screen out over `area`: the gauge, the payment fields and
    /// the table in three rows cut from `area`, the two fields side by side
    /// in the middle row, the deletion popup over the table and the
    /// new-budget popup over the whole area. Whatever sizes the layout
    /// solver picks, every piece lies within `area`, a popup shows exactly
    /// while its dialog is open, and the cursor is in the focused field.
    pub fn draw(&self, area: Rect) -> (r: ScreenPlan)
        ensures
            r.deletion is Some <==> self.mode is Deleting,
            r.new_budget is Some <==> self.mode is NewBudget,
            self.cursor_placed(r),
            piece_of(Axis::Vertical, r.gauge, area),
            piece_of(Axis::Vertical, r.table, area),
            exists|row: Rect|
                piece_of(Axis::Vertical, row, area) && #[trigger] piece_of(
                    Axis::Horizontal,
                    r.kind_field,
                    row,
                ) && piece_of(Axis::Horizontal, r.amount_field, row),
            inside(r.gauge, area),
            inside(r.kind_field, area),
            inside(r.amount_field, area),
            inside(r.table, area),
            r.deletion matches Some(d) ==> inside(d, r.table),
            r.new_budget matches Some(f) ==> inside(f.0, area) && inside(f.1, area),
    {
        let mut shares: Vec<Share> = Vec::new();
        shares.push(Share::Min(3));
        shares.push(Share::Min(3));
        shares.push(Share::Percentage(100));
        let bar = split_area(area, Axis::Vertical, &shares);
        let mut pshares: Vec<Share> = Vec::new();
        pshares.push(Share::Fill(3));
        pshares.push(Share::Fill(1));
        let inputs = split_area(bar[1], Axis::Horizontal, &pshares);
        let del = popup_box(bar[2]);
        let mut bshares: Vec<Share> = Vec::new();
        bshares.push(Share::Fill(2));
        bshares.push(Share::Fill(1));
        let popup = popup_box(area);
        let fields = split_area(popup, Axis::Horizontal, &bshares);
        assert(piece_of(Axis::Vertical, bar@[0], area));
        assert(piece_of(Axis::Vertical, bar@[1], area));
        assert(piece_of(Axis::Vertical, bar@[2], area));
        assert(piece_of(Axis::Horizontal, inputs@[0], bar@[1]));
        assert(piece_of(Axis::Horizontal, inputs@[1], bar@[1]));
        assert(piece_of(Axis::Horizontal, fields@[0], popup));
        assert(piece_of(Axis::Horizontal, fields@[1], popup));
        let r = self.plan_screen(bar[0], inputs[0], inputs[1], bar[2], del, fields[0], fields[1]);
        assert(piece_of(Axis::Horizontal, r.kind_field, bar@[1]));
        r
    }

    /// The field whose title is highlighted: the focused one, while a
    /// dialog with fields is open.
    pub fn focused(&self) -> (r: Option<InputLocation>)
        ensures
            r == if self.mode is Editing || self.mode is NewBudget {
                Some(self.location)
            } else {
                None::<InputLocation>
            },
    {
        match self.mode {
            InputMode::Editing | InputMode::NewBudget => Some(self.location),
            _ => None,
        }
    }
}

} // verus!
