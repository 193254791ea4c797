//! Screen regions: the rectangle type and the split of a terminal into the
//! bars, gauges, table and side panels of the dashboard.

use crate::text::same_text;
use vstd::prelude::*;

verus! {

/// `a + b`, held at the largest 16-bit value.
pub open spec fn sat_add(a: int, b: int) -> int {
    if a + b > u16::MAX as int {
        u16::MAX as int
    } else {
        a + b
    }
}

/// `a - b`, held at zero.
pub open spec fn sat_sub(a: int, b: int) -> int {
    if a >= b {
        a - b
    } else {
        0
    }
}

/// A rectangle of character cells.
#[derive(Debug, Clone, Copy, PartialEq, Eq, Structural)]
pub struct Rect {
    pub x: u16,
    pub y: u16,
    pub width: u16,
    pub height: u16,
}

impl Rect {
    /// The rectangle with its corner at column `x`, row `y`.
    pub fn new(x: u16, y: u16, width: u16, height: u16) -> (r: Self)
        ensures
            r == (Rect { x, y, width, height }),
    {
        Self { x, y, width, height }
    }

    /// First column to the right of the rectangle, held at the largest value.
    pub open spec fn spec_right(self) -> int {
        sat_add(self.x as int, self.width as int)
    }

    /// First row below the rectangle, held at the largest value.
    pub open spec fn spec_bottom(self) -> int {
        sat_add(self.y as int, self.height as int)
    }

    /// Number of cells, held at the largest value.
    pub open spec fn spec_area(self) -> int {
        if self.width * self.height > u16::MAX as int {
            u16::MAX as int
        } else {
            self.width * self.height
        }
    }

    /// Whether the rectangle holds no cell.
    pub open spec fn spec_is_empty(self) -> bool {
        self.width == 0 || self.height == 0
    }

    /// Whether the two rectangles share a cell (judged on the clamped edges).
    pub open spec fn spec_intersects(self, other: Rect) -> bool {
        &&& (self.x as int) < other.spec_right()
        &&& self.spec_right() > other.x as int
        &&& (self.y as int) < other.spec_bottom()
        &&& self.spec_bottom() > other.y as int
    }

    /// The rectangle shrunk by `margin` cells on every side.
    pub open spec fn spec_inner(self, margin: u16) -> Rect {
        let doubled = sat_add(margin as int, margin as int);
        Rect {
            x: sat_add(self.x as int, margin as int) as u16,
            y: sat_add(self.y as int, margin as int) as u16,
            width: sat_sub(self.width as int, doubled) as u16,
            height: sat_sub(self.height as int, doubled) as u16,
        }
    }

    /// The first column to the right of the rectangle.
    pub fn right(&self) -> (r: u16)
        ensures
            r == self.spec_right(),
    {
        self.x.saturating_add(self.width)
    }

    /// The first row below the rectangle.
    pub fn bottom(&self) -> (r: u16)
        ensures
            r == self.spec_bottom(),
    {
        self.y.saturating_add(self.height)
    }

    /// The number of cells.
    pub fn area(&self) -> (r: u16)
        ensures
            r == self.spec_area(),
    {
        match self.width.checked_mul(self.height) {
            Some(cells) => cells,
            None => u16::MAX,
        }
    }

    /// Whether the rectangle holds no cell.
    pub fn is_empty(&self) -> (r: bool)
        ensures
            r == self.spec_is_empty(),
    {
        self.width == 0 || self.height == 0
    }

    /// Whether the two rectangles share a cell.
    pub fn intersects(&self, other: &Rect) -> (r: bool)
        ensures
            r == self.spec_intersects(*other),
    {
        self.x < other.right() && self.right() > other.x && self.y < other.bottom()
            && self.bottom() > other.y
    }

    /// The rectangle shrunk by `margin` cells on every side.
    pub fn inner(&self, margin: u16) -> (r: Self)
        ensures
            r == self.spec_inner(margin),
    {
        let doubled_margin = margin.saturating_add(margin);
        Self {
            x: self.x.saturating_add(margin),
            y: self.y.saturating_add(margin),
            width: self.width.saturating_sub(doubled_margin),
            height: self.height.saturating_sub(doubled_margin),
        }
    }
}

/// The regions of the main screen.
#[derive(Debug, Clone, Copy, PartialEq, Eq, Structural)]
pub struct MainLayout {
    pub top_bar: Rect,
    pub gauges: Rect,
    pub table: Rect,
    pub network: Rect,
    pub temperature: Rect,
    pub footer: Rect,
}

/// The two halves of the gauges band.
#[derive(Debug, Clone, Copy, PartialEq, Eq, Structural)]
pub struct GaugesLayout {
    pub cpu: Rect,
    pub memory: Rect,
}

/// Rows of the gauges band when the terminal is tall enough.
pub const GAUGES_HEIGHT: u16 = 4;

/// Fewest rows the network and temperature panels are given.
pub const MIN_PANEL_HEIGHT: u16 = 4;

/// The split of a terminal of the given size, anchored at the origin:
/// one row of top bar, the gauges band, the process table, the two side
/// panels in the lower third (at least `MIN_PANEL_HEIGHT` rows) and one row
/// of footer.
pub open spec fn main_regions(width: u16, height: u16) -> MainLayout {
    let gauges_height = if sat_sub(height as int, 2) < GAUGES_HEIGHT {
        sat_sub(height as int, 2)
    } else {
        GAUGES_HEIGHT as int
    };
    let gauges_bottom = 1 + gauges_height;
    let footer_y = sat_sub(height as int, 1);
    let available = sat_sub(footer_y, gauges_bottom);
    let panel_height = if available / 3 < MIN_PANEL_HEIGHT {
        MIN_PANEL_HEIGHT as int
    } else {
        available / 3
    };
    let panel_y = sat_sub(footer_y, panel_height);
    let half = width / 2;
    MainLayout {
        top_bar: Rect { x: 0, y: 0, width, height: 1 },
        gauges: Rect { x: 0, y: 1, width, height: gauges_height as u16 },
        table: Rect {
            x: 0,
            y: gauges_bottom as u16,
            width,
            height: sat_sub(panel_y, gauges_bottom) as u16,
        },
        network: Rect { x: 0, y: panel_y as u16, width: half, height: panel_height as u16 },
        temperature: Rect {
            x: half,
            y: panel_y as u16,
            width: (width - half) as u16,
            height: panel_height as u16,
        },
        footer: Rect { x: 0, y: footer_y as u16, width, height: 1 },
    }
}

/// On a terminal of at least ten rows the regions fill the screen in
/// bands that do not overlap: the top bar, the gauges, the table, the two
/// side panels and the footer lie one below the other from the first row
/// to the last, every band is as wide as the screen, and the two panels
/// halve their band.
pub proof fn lemma_bands_fill_the_screen(width: u16, height: u16)
    requires
        height >= 10,
    ensures
        ({
            let r = main_regions(width, height);
            &&& r.top_bar == (Rect { x: 0, y: 0, width, height: 1 })
            &&& r.gauges == (Rect { x: 0, y: 1, width, height: GAUGES_HEIGHT })
            &&& r.table.x == 0 && r.table.width == width
            &&& r.table.y == r.gauges.y + r.gauges.height
            &&& r.network.y == r.table.y + r.table.height
            &&& r.temperature.y == r.network.y
            &&& r.network.height == r.temperature.height
            &&& r.network.height >= MIN_PANEL_HEIGHT
            &&& r.footer.y == r.network.y + r.network.height
            &&& r.footer.y + r.footer.height == height
            &&& r.network.x == 0
            &&& r.temperature.x == r.network.width
            &&& r.network.width + r.temperature.width == width
            &&& r.temperature.width - r.network.width <= 1
            &&& r.footer == (Rect { x: 0, y: (height - 1) as u16, width, height: 1 })
        }),
{
}

/// Every region starts on the screen and is no wider than the screen, on a
/// terminal of any size; and on a terminal of at least five rows no region
/// reaches below the last row.
pub proof fn lemma_regions_on_screen(width: u16, height: u16)
    ensures
        ({
            let r = main_regions(width, height);
            &&& r.top_bar.x + r.top_bar.width <= width
            &&& r.gauges.x + r.gauges.width <= width
            &&& r.table.x + r.table.width <= width
            &&& r.network.x + r.network.width <= width
            &&& r.temperature.x + r.temperature.width <= width
            &&& r.footer.x + r.footer.width <= width
            &&& height >= 5 ==> {
                &&& r.top_bar.y + r.top_bar.height <= height
                &&& r.gauges.y + r.gauges.height <= height
                &&& r.table.y + r.table.height <= height
                &&& r.network.y + r.network.height <= height
                &&& r.temperature.y + r.temperature.height <= height
                &&& r.footer.y + r.footer.height <= height
            }
        }),
{
}

/// The split of `area` into a left and a right half; the right half takes
/// the odd column.
pub open spec fn gauge_regions(area: Rect) -> GaugesLayout {
    let half = area.width / 2;
    GaugesLayout {
        cpu: Rect { x: area.x, y: area.y, width: half, height: area.height },
        memory: Rect {
            x: sat_add(area.x as int, half as int) as u16,
            y: area.y,
            width: (area.width - half) as u16,
            height: area.height,
        },
    }
}

/// The width a column asks for, by its heading.
pub open spec fn preferred_width(name: Seq<char>) -> nat {
    if name == "PID"@ {
        8
    } else if name == "USER"@ {
        12
    } else if name == "CPU%"@ {
        6
    } else if name == "MEM%"@ {
        6
    } else if name == "RSS"@ {
        8
    } else if name == "VSZ"@ {
        8
    } else if name == "THR"@ {
        4
    } else if name == "STATE"@ {
        6
    } else if name == "TIME"@ {
        8
    } else if name == "NAME"@ {
        20
    } else {
        10
    }
}

/// The headings of a column list, as character sequences.
pub open spec fn headings(columns: Seq<&str>) -> Seq<Seq<char>> {
    Seq::new(columns.len(), |i: int| columns[i]@)
}

/// The preferred widths of the columns `names`, in order.
pub open spec fn preferred_widths(names: Seq<Seq<char>>) -> Seq<nat> {
    Seq::new(names.len(), |i: int| preferred_width(names[i]))
}

/// Sum of the widths in `widths`.
pub open spec fn total_width(widths: Seq<nat>) -> nat
    decreases widths.len(),
{
    if widths.len() == 0 {
        0
    } else {
        total_width(widths.drop_last()) + widths.last()
    }
}

/// Index of the first column headed NAME among the first `upto` columns.
pub open spec fn name_column(names: Seq<Seq<char>>, upto: int) -> Option<int>
    decreases upto,
{
    if upto <= 0 {
        None
    } else {
        match name_column(names, upto - 1) {
            Some(i) => Some(i),
            None => if names[upto - 1] == "NAME"@ {
                Some(upto - 1)
            } else {
                None
            },
        }
    }
}

/// The cells a column of preferred width `preferred` gets when the columns,
/// `total` cells wide together, are squeezed into `width`: its proportional
/// share rounded down, and never less than one cell.
pub open spec fn squeezed_width(preferred: nat, width: nat, total: nat) -> nat {
    if (preferred * width) / total < 1 {
        1
    } else {
        (preferred * width) / total
    }
}

/// The widths given to the columns `names` in `width` cells. Where the
/// preferred widths fit, each column gets its own and the first NAME column
/// takes what is left over; where they do not fit, each is squeezed.
pub open spec fn column_widths(names: Seq<Seq<char>>, width: nat) -> Seq<nat> {
    let preferred = preferred_widths(names);
    let total = total_width(preferred);
    if total <= width {
        match name_column(names, names.len() as int) {
            Some(i) => preferred.update(i, (width - (total - preferred[i])) as nat),
            None => preferred,
        }
    } else {
        Seq::new(names.len(), |i: int| squeezed_width(preferred[i], width, total))
    }
}

/// Column at which the `i`th of the columns starts, the first one at `start`.
pub open spec fn column_start(start: int, widths: Seq<nat>, i: int) -> int
    decreases i,
{
    if i <= 0 {
        start
    } else {
        sat_add(column_start(start, widths, i - 1), widths[i - 1] as int)
    }
}

/// The rectangles of the columns of a table that fills `area`.
pub open spec fn column_rects(area: Rect, names: Seq<Seq<char>>) -> Seq<Rect> {
    if names.len() == 0 || area.width == 0 {
        Seq::empty()
    } else {
        let widths = column_widths(names, area.width as nat);
        Seq::new(
            names.len(),
            |i: int|
                Rect {
                    x: column_start(area.x as int, widths, i) as u16,
                    y: area.y,
                    width: widths[i] as u16,
                    height: area.height,
                },
        )
    }
}

/// The preferred width of the column headed `name`.
pub fn column_preferred_width(name: &str) -> (w: u16)
    ensures
        w == preferred_width(name@),
        4 <= w <= 20,
{
    if same_text(name, "PID") {
        8
    } else if same_text(name, "USER") {
        12
    } else if same_text(name, "CPU%") {
        6
    } else if same_text(name, "MEM%") {
        6
    } else if same_text(name, "RSS") {
        8
    } else if same_text(name, "VSZ") {
        8
    } else if same_text(name, "THR") {
        4
    } else if same_text(name, "STATE") {
        6
    } else if same_text(name, "TIME") {
        8
    } else if same_text(name, "NAME") {
        20
    } else {
        10
    }
}

/// Each width is at most the sum of all of them.
proof fn lemma_total_bounds(widths: Seq<nat>, i: int)
    requires
        0 <= i < widths.len(),
    ensures
        widths[i] <= total_width(widths),
    decreases widths.len(),
{
    if i < widths.len() - 1 {
        lemma_total_bounds(widths.drop_last(), i);
    }
}

/// A column squeezed into fewer cells than all columns ask for gets fewer
/// cells than it asks for.
proof fn lemma_share_bound(preferred: nat, width: nat, total: nat)
    requires
        width < total,
    ensures
        (preferred * width) / total <= preferred,
{
    assert((preferred * width) / total <= preferred) by (nonlinear_arith)
        requires
            width < total,
    ;
}

/// The squeezed widths of the columns `preferred`.
pub open spec fn squeezed_widths(preferred: Seq<nat>, width: nat, total: nat) -> Seq<nat> {
    Seq::new(preferred.len(), |i: int| squeezed_width(preferred[i], width, total))
}

/// Number of columns among `preferred` whose proportional share of `width`
/// is less than one cell, so that squeezing rounds them up to one.
pub open spec fn starved_columns(preferred: Seq<nat>, width: nat, total: nat) -> nat
    decreases preferred.len(),
{
    if preferred.len() == 0 {
        0
    } else {
        starved_columns(preferred.drop_last(), width, total) + if (preferred.last() * width)
            / total < 1 {
            1nat
        } else {
            0nat
        }
    }
}

/// Number of columns that the layout of `names` in `width` cells rounds up
/// to one cell: none where the preferred widths fit.
pub open spec fn rounded_up_columns(names: Seq<Seq<char>>, width: nat) -> nat {
    let preferred = preferred_widths(names);
    let total = total_width(preferred);
    if total <= width {
        0
    } else {
        starved_columns(preferred, width, total)
    }
}

proof fn lemma_total_update(widths: Seq<nat>, i: int, v: nat)
    requires
        0 <= i < widths.len(),
    ensures
        total_width(widths.update(i, v)) == total_width(widths) - widths[i] + v,
    decreases widths.len(),
{
    if i < widths.len() - 1 {
        lemma_total_update(widths.drop_last(), i, v);
        assert(widths.update(i, v).drop_last() =~= widths.drop_last().update(i, v));
    } else {
        assert(widths.update(i, v).drop_last() =~= widths.drop_last());
    }
}

proof fn lemma_name_column_in_range(names: Seq<Seq<char>>, upto: int)
    requires
        0 <= upto <= names.len(),
    ensures
        match name_column(names, upto) {
            Some(i) => 0 <= i < upto && names[i] == "NAME"@,
            None => true,
        },
    decreases upto,
{
    if upto > 0 {
        lemma_name_column_in_range(names, upto - 1);
    }
}

proof fn lemma_squeezed_total(preferred: Seq<nat>, width: nat, total: nat)
    requires
        total > 0,
    ensures
        total_width(squeezed_widths(preferred, width, total)) >= starved_columns(
            preferred,
            width,
            total,
        ),
        (total_width(squeezed_widths(preferred, width, total)) - starved_columns(
            preferred,
            width,
            total,
        )) * total <= total_width(preferred) * width,
    decreases preferred.len(),
{
    let all = squeezed_widths(preferred, width, total);
    if preferred.len() == 0 {
        assert(0 * total == 0) by (nonlinear_arith);
        assert(0 * width == 0) by (nonlinear_arith);
    } else {
        let front = preferred.drop_last();
        lemma_squeezed_total(front, width, total);
        assert(all.drop_last() =~= squeezed_widths(front, width, total));
        let p = preferred.last();
        let share = (p * width) / total;
        let a = total_width(squeezed_widths(front, width, total)) - starved_columns(
            front,
            width,
            total,
        );
        let f = total_width(front);
        assert(share * total <= p * width) by (nonlinear_arith)
            requires
                share == (p * width) / total,
                total > 0,
        ;
        assert((a + share) * total <= (f + p) * width) by (nonlinear_arith)
            requires
                a * total <= f * width,
                share * total <= p * width,
        ;
    }
}

/// Column widths against the space they are given. For every list of
/// columns and every width of at least one cell, each column is at least one
/// cell wide, and the widths together exceed the given width by no more than
/// the number of columns that had to be rounded up to one cell. So wherever
/// no column is rounded up, the columns fit the width; and where the
/// preferred widths fit and a NAME column is present, they fill it exactly.
pub proof fn lemma_column_widths_within(names: Seq<Seq<char>>, width: nat)
    requires
        width >= 1,
    ensures
        column_widths(names, width).len() == names.len(),
        forall|i: int| 0 <= i < names.len() ==> #[trigger] column_widths(names, width)[i] >= 1,
        total_width(column_widths(names, width)) <= width + rounded_up_columns(names, width),
        rounded_up_columns(names, width) == 0 ==> total_width(column_widths(names, width))
            <= width,
        total_width(preferred_widths(names)) <= width && name_column(
            names,
            names.len() as int,
        ).is_some() ==> total_width(column_widths(names, width)) == width,
{
    let preferred = preferred_widths(names);
    let total = total_width(preferred);
    let widths = column_widths(names, width);
    if total <= width {
        lemma_name_column_in_range(names, names.len() as int);
        match name_column(names, names.len() as int) {
            Some(i) => {
                lemma_total_bounds(preferred, i);
                lemma_total_update(preferred, i, (width - (total - preferred[i])) as nat);
            },
            None => {},
        }
    } else {
        assert(widths =~= squeezed_widths(preferred, width, total));
        lemma_squeezed_total(preferred, width, total);
        let s = total_width(widths) - rounded_up_columns(names, width);
        assert(s <= width) by (nonlinear_arith)
            requires
                s * total <= total * width,
                total > 0,
        ;
    }
}

proof fn lemma_total_of_front(widths: Seq<nat>, i: int)
    requires
        0 <= i <= widths.len(),
    ensures
        total_width(widths.take(i)) <= total_width(widths),
    decreases widths.len(),
{
    if i == widths.len() {
        assert(widths.take(i) =~= widths);
    } else {
        lemma_total_of_front(widths.drop_last(), i);
        assert(widths.drop_last().take(i) =~= widths.take(i));
    }
}

proof fn lemma_column_start(start: int, widths: Seq<nat>, i: int, room: int)
    requires
        0 <= i <= widths.len(),
        0 <= start,
        total_width(widths) <= room,
        start + room <= u16::MAX,
    ensures
        column_start(start, widths, i) == start + total_width(widths.take(i)),
        column_start(start, widths, i) <= start + room,
    decreases i,
{
    lemma_total_of_front(widths, i);
    if i > 0 {
        lemma_column_start(start, widths, i - 1, room);
        assert(widths.take(i).drop_last() =~= widths.take(i - 1));
        assert(widths.take(i).last() == widths[i - 1]);
    } else {
        assert(widths.take(0) =~= Seq::<nat>::empty());
    }
}

/// Where no column is rounded up, every column of a table starts inside
/// the table's region or at its right edge, on the table's first row.
pub proof fn lemma_columns_start_inside(area: Rect, names: Seq<Seq<char>>, i: int)
    requires
        area.x + area.width <= u16::MAX,
        rounded_up_columns(names, area.width as nat) == 0,
        0 <= i < column_rects(area, names).len(),
    ensures
        area.x <= column_rects(area, names)[i].x <= area.x + area.width,
        column_rects(area, names)[i].y == area.y,
{
    lemma_column_widths_within(names, area.width as nat);
    lemma_column_start(
        area.x as int,
        column_widths(names, area.width as nat),
        i,
        area.width as int,
    );
}

/// Computes the screen regions for a terminal of a known size.
pub struct Layout {
    terminal_rect: Rect,
}

impl Layout {
    #[verifier::type_invariant]
    spec fn anchored(self) -> bool {
        self.terminal_rect.x == 0 && self.terminal_rect.y == 0
    }

    /// The terminal's rectangle.
    pub closed spec fn spec_terminal_rect(self) -> Rect {
        self.terminal_rect
    }

    /// A layout for a terminal of `width` columns and `height` rows.
    pub fn new(width: u16, height: u16) -> (r: Self)
        ensures
            r.spec_terminal_rect() == (Rect { x: 0, y: 0, width, height }),
    {
        Self { terminal_rect: Rect::new(0, 0, width, height) }
    }

    /// Takes over a new terminal size, as after a resize.
    pub fn update_terminal_size(&mut self, width: u16, height: u16)
        ensures
            final(self).spec_terminal_rect() == (Rect { x: 0, y: 0, width, height }),
    {
        self.terminal_rect = Rect::new(0, 0, width, height);
    }

    /// The terminal's rectangle, anchored at the origin.
    pub fn terminal_rect(&self) -> (r: Rect)
        ensures
            r == self.spec_terminal_rect(),
            r.x == 0,
            r.y == 0,
    {
        proof {
            use_type_invariant(self);
        }
        self.terminal_rect
    }

    /// The regions of the main screen for the current terminal size.
    pub fn main_layout(&self) -> (r: MainLayout)
        ensures
            r == main_regions(self.spec_terminal_rect().width, self.spec_terminal_rect().height),
    {
        proof {
            use_type_invariant(self);
        }
        let rect = self.terminal_rect;
        let top_bar = Rect::new(rect.x, rect.y, rect.width, 1);
        let available_rows = rect.height.saturating_sub(1).saturating_sub(1);
        let gauges_height = if available_rows < GAUGES_HEIGHT {
            available_rows
        } else {
            GAUGES_HEIGHT
        };
        let gauges = Rect::new(rect.x, top_bar.bottom(), rect.width, gauges_height);
        let footer = Rect::new(rect.x, rect.bottom().saturating_sub(1), rect.width, 1);
        let available_height = footer.y.saturating_sub(gauges.bottom());
        let third = available_height / 3;
        let bottom_height = if third < MIN_PANEL_HEIGHT {
            MIN_PANEL_HEIGHT
        } else {
            third
        };
        let bottom_y = footer.y.saturating_sub(bottom_height);
        let bottom_width = rect.width / 2;
        let network = Rect::new(rect.x, bottom_y, bottom_width, bottom_height);
        let temperature = Rect::new(
            rect.x + bottom_width,
            bottom_y,
            rect.width - bottom_width,
            bottom_height,
        );
        let table = Rect::new(
            rect.x,
            gauges.bottom(),
            rect.width,
            bottom_y.saturating_sub(gauges.bottom()),
        );
        MainLayout { top_bar, gauges, table, network, temperature, footer }
    }

    /// The two halves of the gauges band `area`.
    pub fn gauges_layout(&self, area: Rect) -> (r: GaugesLayout)
        ensures
            r == gauge_regions(area),
    {
        let width = area.width;
        let height = area.height;
        let col_width = width / 2;
        let cpu_area = Rect::new(area.x, area.y, col_width, height);
        let memory_area = Rect::new(
            area.x.saturating_add(col_width),
            area.y,
            width - col_width,
            height,
        );
        GaugesLayout { cpu: cpu_area, memory: memory_area }
    }

    /// The rectangles of the table columns headed `columns`, side by side
    /// from the left edge of `area`.
    pub fn table_layout(&self, area: Rect, columns: &[&str]) -> (r: Vec<Rect>)
        ensures
            r@ == column_rects(area, headings(columns@)),
    {
        column_layout(area, columns)
    }
}

/// The rectangles of the table columns headed `columns`, side by side from
/// the left edge of `area`.
pub fn column_layout(area: Rect, columns: &[&str]) -> (r: Vec<Rect>)
    ensures
        r@ == column_rects(area, headings(columns@)),
{
    let count = columns.len();
    if count == 0 || area.width == 0 {
        return Vec::new();
    }
    let ghost names = headings(columns@);
    let ghost preferred = preferred_widths(names);
    let mut prefs: Vec<u16> = Vec::new();
    let mut total: u128 = 0;
    let mut name_idx: Option<usize> = None;
    let mut i: usize = 0;
    while i < count
        invariant
            i <= count == columns.len(),
            names == headings(columns@),
            preferred == preferred_widths(names),
            prefs.len() == i,
            forall|k: int| 0 <= k < i ==> prefs[k] as nat == preferred[k],
            forall|k: int| 0 <= k < i ==> 4 <= #[trigger] prefs[k] <= 20,
            total == total_width(preferred.take(i as int)),
            total <= 20 * i,
            match name_idx {
                Some(n) => name_column(names, i as int) == Some(n as int) && n < i,
                None => name_column(names, i as int).is_none(),
            },
        decreases count - i,
    {
        let w = column_preferred_width(columns[i]);
        proof {
            assert(preferred.take(i + 1).drop_last() =~= preferred.take(i as int));
        }
        if name_idx.is_none() && same_text(columns[i], "NAME") {
            name_idx = Some(i);
        }
        prefs.push(w);
        total = total + w as u128;
        i += 1;
    }
    proof {
        assert(preferred.take(count as int) =~= preferred);
    }
    let available = area.width;
    let ghost target = column_widths(names, available as nat);
    let mut widths: Vec<u16> = Vec::new();
    let mut j: usize = 0;
    while j < count
        invariant
            j <= count == prefs.len(),
            names.len() == count,
            preferred == preferred_widths(names),
            forall|k: int| 0 <= k < count ==> prefs[k] as nat == preferred[k],
            forall|k: int| 0 <= k < count ==> 4 <= #[trigger] prefs[k] <= 20,
            total == total_width(preferred),
            target.len() == count,
            available >= 1,
            target == column_widths(names, available as nat),
            match name_idx {
                Some(n) => name_column(names, count as int) == Some(n as int) && n < count,
                None => name_column(names, count as int).is_none(),
            },
            widths.len() == j,
            forall|k: int| 0 <= k < j ==> widths[k] as nat == target[k],
        decreases count - j,
    {
        let p = prefs[j];
        let w: u16 = if total <= available as u128 {
            if name_idx == Some(j) {
                proof {
                    lemma_total_bounds(preferred, j as int);
                }
                (available as u128 - (total - p as u128)) as u16
            } else {
                p
            }
        } else {
            proof {
                assert(p as nat * available as nat <= 20 * 65535) by (nonlinear_arith)
                    requires
                        p <= 20,
                        available <= 65535,
                ;
                lemma_share_bound(p as nat, available as nat, total as nat);
            }
            let share = (p as u128 * available as u128) / total;
            if share < 1 {
                1
            } else {
                share as u16
            }
        };
        widths.push(w);
        j += 1;
    }
    let mut rects: Vec<Rect> = Vec::with_capacity(count);
    let mut x: u16 = area.x;
    let mut k: usize = 0;
    while k < count
        invariant
            k <= count == widths.len(),
            names.len() == count,
            area.width >= 1,
            target == column_widths(names, area.width as nat),
            target.len() == count,
            forall|m: int| 0 <= m < count ==> widths[m] as nat == target[m],
            x == column_start(area.x as int, target, k as int),
            rects.len() == k,
            forall|m: int| 0 <= m < k ==> rects[m] == column_rects(area, names)[m],
        decreases count - k,
    {
        let width = widths[k];
        rects.push(Rect::new(x, area.y, width, area.height));
        x = x.saturating_add(width);
        k += 1;
    }
    proof {
        assert(rects@ =~= column_rects(area, names));
    }
    rects
}

} // verus!
