//! The process table: a heading and one row per visible process.

use crate::canvas::{Canvas, Draw};
use crate::colors::ColorScheme;
use crate::layout::{column_layout, column_rects, headings, sat_add, sat_sub, Rect};
use crate::model::{rows, ProcessInfo, ProcessRow};
use crate::numbers::{fixed_text, zero_padded};
use crate::text::{
    decimal, decimal_string, fit, fitted, pad_left, pad_right, padded, padded_left, push_char,
    same_text,
};
use crate::units::{bytes_text, format_bytes};
use vstd::prelude::*;
use vstd::string::*;

verus! {

/// A share as the table shows it: one decimal, five characters wide.
pub open spec fn share_text(thousandths: int) -> Seq<char> {
    padded_left(fixed_text(thousandths, 1), 5)
}

/// Minutes and seconds, each with at least two digits.
pub open spec fn clock_text(seconds: nat) -> Seq<char> {
    padded_zero(decimal(seconds / 60)) + seq![':'] + zero_padded(seconds % 60, 2)
}

/// A number's notation with a leading zero where it has but one digit.
pub open spec fn padded_zero(digits: Seq<char>) -> Seq<char> {
    if digits.len() < 2 {
        seq!['0'] + digits
    } else {
        digits
    }
}

/// The text of the cell of `row` in the column headed `column`, at the time
/// `now` in seconds since the epoch. An unknown column stays empty.
pub open spec fn cell_text(row: ProcessRow, column: Seq<char>, now: u64) -> Seq<char> {
    if column == "PID"@ {
        decimal(row.pid as nat)
    } else if column == "NAME"@ {
        row.name
    } else if column == "USER"@ {
        row.user
    } else if column == "CPU%"@ {
        share_text(row.cpu_percent.thousandths as int)
    } else if column == "MEM%"@ {
        share_text(row.memory_percent.thousandths as int)
    } else if column == "RSS"@ {
        bytes_text(row.memory_rss)
    } else if column == "VSZ"@ {
        bytes_text(row.memory_vsz)
    } else if column == "THR"@ {
        decimal(row.threads as nat)
    } else if column == "STATE"@ {
        row.state.label()
    } else if column == "TIME"@ {
        clock_text(sat_sub(now as int, row.start_time as int) as nat)
    } else {
        Seq::empty()
    }
}

/// The colour instruction that precedes a cell that is not selected: the
/// state's colour in the STATE column, the warning colour for a share above
/// fifty percent.
pub open spec fn cell_tint(row: ProcessRow, column: Seq<char>, colors: ColorScheme) -> Seq<Draw> {
    if column == "STATE"@ {
        seq![Draw::Foreground(colors.state_color(row.state))]
    } else if column == "CPU%"@ && row.cpu_percent.thousandths > 50_000 {
        seq![Draw::Foreground(colors.warning)]
    } else if column == "MEM%"@ && row.memory_percent.thousandths > 50_000 {
        seq![Draw::Foreground(colors.warning)]
    } else {
        Seq::empty()
    }
}

/// The first `count` headings, each at its column and filled to its width.
pub open spec fn headings_drawn(names: Seq<Seq<char>>, rects: Seq<Rect>, count: nat) -> Seq<Draw>
    decreases count,
{
    if count == 0 {
        Seq::empty()
    } else {
        let i = count - 1;
        headings_drawn(names, rects, i as nat) + if i < rects.len() {
            seq![
                Draw::MoveTo(rects[i].x, rects[i].y),
                Draw::Print(padded(names[i], rects[i].width as nat)),
            ]
        } else {
            Seq::empty()
        }
    }
}

/// The cell of `row` in the column headed `name` that lies at `rect`.
pub open spec fn cell_drawn(
    name: Seq<char>,
    rect: Rect,
    row: ProcessRow,
    y: u16,
    selected: bool,
    now: u64,
    colors: ColorScheme,
) -> Seq<Draw> {
    seq![Draw::MoveTo(rect.x, y)] + (if selected {
        Seq::empty()
    } else {
        cell_tint(row, name, colors)
    } + seq![Draw::Print(fitted(cell_text(row, name, now), rect.width as nat))])
}

/// The first `count` cells of the row of `row` on the screen row `y`.
pub open spec fn cells_drawn(
    names: Seq<Seq<char>>,
    rects: Seq<Rect>,
    row: ProcessRow,
    y: u16,
    selected: bool,
    now: u64,
    colors: ColorScheme,
    count: nat,
) -> Seq<Draw>
    decreases count,
{
    if count == 0 {
        Seq::empty()
    } else {
        let i = count - 1;
        cells_drawn(names, rects, row, y, selected, now, colors, i as nat) + if i < rects.len() {
            cell_drawn(names[i], rects[i], row, y, selected, now, colors)
        } else {
            Seq::empty()
        }
    }
}

/// The colours that open a row: the selection's, the alternate row's, or
/// the plain ones.
pub open spec fn row_colors(selected: bool, alternate: bool, colors: ColorScheme) -> Seq<Draw> {
    if selected {
        seq![Draw::Background(colors.table_selected), Draw::Foreground(colors.background)]
    } else if alternate {
        seq![Draw::Background(colors.table_row_alt), Draw::Foreground(colors.foreground)]
    } else {
        seq![Draw::Background(colors.background), Draw::Foreground(colors.foreground)]
    }
}

/// The row of `row`, the `index`th below the heading.
pub open spec fn row_drawn(
    area: Rect,
    names: Seq<Seq<char>>,
    rects: Seq<Rect>,
    row: ProcessRow,
    index: nat,
    selected: bool,
    now: u64,
    colors: ColorScheme,
) -> Seq<Draw> {
    row_colors(selected, index % 2 == 1, colors) + cells_drawn(
        names,
        rects,
        row,
        sat_add(sat_add(area.y as int, 1), index as int) as u16,
        selected,
        now,
        colors,
        names.len(),
    )
}

/// Number of processes shown: those from `start` on, as many as there are
/// rows below the heading.
pub open spec fn visible_count(area: Rect, total: nat, start: nat) -> nat {
    let rows = sat_sub(area.height as int, 1);
    if start >= total {
        0
    } else if total - start < rows {
        (total - start) as nat
    } else {
        rows as nat
    }
}

/// The first `count` rows of the window that begins at `start`.
pub open spec fn rows_drawn(
    area: Rect,
    names: Seq<Seq<char>>,
    rects: Seq<Rect>,
    list: Seq<ProcessRow>,
    selected: nat,
    start: nat,
    now: u64,
    colors: ColorScheme,
    count: nat,
) -> Seq<Draw>
    decreases count,
{
    if count == 0 {
        Seq::empty()
    } else {
        let i = (count - 1) as nat;
        rows_drawn(area, names, rects, list, selected, start, now, colors, i) + row_drawn(
            area,
            names,
            rects,
            list[(start + i) as int],
            i,
            start + i == selected,
            now,
            colors,
        )
    }
}

/// Process table widget.
pub struct ProcessTable;

impl ProcessTable {
    /// What the table draws in `area`: nothing in less than two rows; else
    /// the headings, the rows of the processes from `start` on as far as
    /// the area reaches, the row at `selected` in the selection's colours,
    /// and at the end the plain colours again.
    pub open spec fn drawn(
        area: Rect,
        list: Seq<ProcessRow>,
        names: Seq<Seq<char>>,
        selected: nat,
        start: nat,
        now: u64,
        colors: ColorScheme,
    ) -> Seq<Draw> {
        let rects = column_rects(area, names);
        if area.height < 2 {
            Seq::empty()
        } else {
            seq![
                Draw::MoveTo(area.x, area.y),
                Draw::Foreground(colors.table_header),
                Draw::Background(colors.background),
            ] + headings_drawn(names, rects, names.len()) + rows_drawn(
                area,
                names,
                rects,
                list,
                selected,
                start,
                now,
                colors,
                visible_count(area, list.len(), start),
            ) + seq![Draw::Background(colors.background), Draw::Foreground(colors.foreground)]
        }
    }

    /// Draws the table into `area`, at the time `now` in seconds since the epoch.
    pub fn render(
        &self,
        canvas: &mut Canvas,
        area: Rect,
        processes: &Vec<ProcessInfo>,
        columns: &[&str],
        selected_index: usize,
        start_index: usize,
        now: u64,
        colors: &ColorScheme,
    )
        ensures
            final(canvas)@ == old(canvas)@ + Self::drawn(
                area,
                rows(processes@),
                headings(columns@),
                selected_index as nat,
                start_index as nat,
                now,
                *colors,
            ),
    {
        if area.height < 2 {
            proof {
                assert(canvas@ =~= old(canvas)@ + Self::drawn(
                    area,
                    rows(processes@),
                    headings(columns@),
                    selected_index as nat,
                    start_index as nat,
                    now,
                    *colors,
                ));
            }
            return ;
        }
        let ghost names = headings(columns@);
        let ghost list = rows(processes@);
        let rects = column_layout(area, columns);
        canvas.move_to(area.x, area.y);
        canvas.foreground(colors.table_header);
        canvas.background(colors.background);
        let ghost opened = canvas@;
        let mut c: usize = 0;
        while c < columns.len()
            invariant
                c <= columns.len(),
                names == headings(columns@),
                canvas@ == opened + headings_drawn(names, rects@, c as nat),
            decreases columns.len() - c,
        {
            if c < rects.len() {
                let rect = rects[c];
                canvas.move_to(rect.x, rect.y);
                canvas.print(pad_right(columns[c], rect.width as usize));
            }
            c += 1;
            proof {
                assert(canvas@ =~= opened + headings_drawn(names, rects@, c as nat));
            }
        }
        let ghost headed = canvas@;
        let visible_rows: usize = (area.height - 1) as usize;
        let shown: usize = if start_index >= processes.len() {
            0
        } else if processes.len() - start_index < visible_rows {
            processes.len() - start_index
        } else {
            visible_rows
        };
        let mut r: usize = 0;
        while r < shown
            invariant
                r <= shown,
                shown <= u16::MAX,
                shown == visible_count(area, list.len(), start_index as nat),
                shown > 0 ==> start_index + shown <= processes.len(),
                names == headings(columns@),
                list == rows(processes@),
                canvas@ == headed + rows_drawn(
                    area,
                    names,
                    rects@,
                    list,
                    selected_index as nat,
                    start_index as nat,
                    now,
                    *colors,
                    r as nat,
                ),
            decreases shown - r,
        {
            let process = &processes[start_index + r];
            let is_selected = start_index + r == selected_index;
            let ghost before = canvas@;
            let ghost done = rows_drawn(
                area,
                names,
                rects@,
                list,
                selected_index as nat,
                start_index as nat,
                now,
                *colors,
                r as nat,
            );
            draw_row(canvas, area, columns, &rects, process, r as u16, is_selected, now, colors);
            r += 1;
            proof {
                let row = row_drawn(
                    area,
                    names,
                    rects@,
                    process@,
                    (r - 1) as nat,
                    is_selected,
                    now,
                    *colors,
                );
                assert(list[start_index + r - 1] == process@);
                assert(canvas@ == before + row);
                assert(before == headed + done);
                assert((headed + done) + row =~= headed + (done + row));
                assert(canvas@ == headed + rows_drawn(
                    area,
                    names,
                    rects@,
                    list,
                    selected_index as nat,
                    start_index as nat,
                    now,
                    *colors,
                    r as nat,
                ));
            }
        }
        canvas.background(colors.background);
        canvas.foreground(colors.foreground);
        proof {
            assert(canvas@ =~= old(canvas)@ + Self::drawn(
                area,
                list,
                names,
                selected_index as nat,
                start_index as nat,
                now,
                *colors,
            ));
        }
    }
}

/// A share as the table shows it.
pub fn format_share(share: crate::numbers::Fixed) -> (r: String)
    ensures
        r@ == share_text(share.thousandths as int),
{
    let text = share.format(1);
    pad_left(text.as_str(), 5)
}

/// Minutes and seconds, each with at least two digits.
pub fn format_clock(seconds: u64) -> (r: String)
    ensures
        r@ == clock_text(seconds as nat),
{
    let minutes = decimal_string(seconds / 60);
    let mut r = String::new();
    if crate::text::char_count(minutes.as_str()) < 2 {
        push_char(&mut r, '0');
    }
    r.append(minutes.as_str());
    push_char(&mut r, ':');
    crate::numbers::push_zero_padded(&mut r, seconds % 60, 2);
    proof {
        assert(r@ =~= clock_text(seconds as nat));
    }
    r
}

/// The text of the cell of `process` in the column headed `column`.
pub fn cell_content(process: &ProcessInfo, column: &str, now: u64) -> (r: String)
    ensures
        r@ == cell_text(process@, column@, now),
{
    if same_text(column, "PID") {
        decimal_string(process.pid as u64)
    } else if same_text(column, "NAME") {
        process.name.clone()
    } else if same_text(column, "USER") {
        process.user.clone()
    } else if same_text(column, "CPU%") {
        format_share(process.cpu_percent)
    } else if same_text(column, "MEM%") {
        format_share(process.memory_percent)
    } else if same_text(column, "RSS") {
        format_bytes(process.memory_rss)
    } else if same_text(column, "VSZ") {
        format_bytes(process.memory_vsz)
    } else if same_text(column, "THR") {
        decimal_string(process.threads)
    } else if same_text(column, "STATE") {
        String::from_str(process.state.name())
    } else if same_text(column, "TIME") {
        format_clock(now.saturating_sub(process.start_time))
    } else {
        String::new()
    }
}

fn draw_row(
    canvas: &mut Canvas,
    area: Rect,
    columns: &[&str],
    rects: &Vec<Rect>,
    process: &ProcessInfo,
    index: u16,
    selected: bool,
    now: u64,
    colors: &ColorScheme,
)
    ensures
        final(canvas)@ == old(canvas)@ + row_drawn(
            area,
            headings(columns@),
            rects@,
            process@,
            index as nat,
            selected,
            now,
            *colors,
        ),
{
    let ghost names = headings(columns@);
    let y = area.y.saturating_add(1).saturating_add(index);
    let alternate = index % 2 == 1;
    if selected {
        canvas.background(colors.table_selected);
        canvas.foreground(colors.background);
    } else if alternate {
        canvas.background(colors.table_row_alt);
        canvas.foreground(colors.foreground);
    } else {
        canvas.background(colors.background);
        canvas.foreground(colors.foreground);
    }
    let ghost opened = canvas@;
    proof {
        assert(opened =~= old(canvas)@ + row_colors(selected, alternate, *colors));
    }
    let mut c: usize = 0;
    while c < columns.len()
        invariant
            c <= columns.len(),
            names == headings(columns@),
            canvas@ == opened + cells_drawn(
                names,
                rects@,
                process@,
                y,
                selected,
                now,
                *colors,
                c as nat,
            ),
        decreases columns.len() - c,
    {
        let ghost done = cells_drawn(names, rects@, process@, y, selected, now, *colors, c as nat);
        if c < rects.len() {
            draw_cell(canvas, columns[c], rects[c], process, y, selected, now, colors);
            proof {
                crate::canvas::lemma_regroup(
                    opened,
                    done,
                    cell_drawn(names[c as int], rects[c as int], process@, y, selected, now, *colors),
                );
            }
        } else {
            proof {
                assert(done + Seq::<Draw>::empty() =~= done);
            }
        }
        c += 1;
    }
    proof {
        let cells = cells_drawn(names, rects@, process@, y, selected, now, *colors, names.len());
        let opening = row_colors(selected, alternate, *colors);
        assert((old(canvas)@ + opening) + cells =~= old(canvas)@ + (opening + cells));
    }
}

fn draw_cell(
    canvas: &mut Canvas,
    column: &str,
    rect: Rect,
    process: &ProcessInfo,
    y: u16,
    selected: bool,
    now: u64,
    colors: &ColorScheme,
)
    ensures
        final(canvas)@ == old(canvas)@ + cell_drawn(
            column@,
            rect,
            process@,
            y,
            selected,
            now,
            *colors,
        ),
{
    canvas.move_to(rect.x, y);
    let content = cell_content(process, column, now);
    if !selected {
        if same_text(column, "STATE") {
            canvas.foreground(colors.process_state_color(&process.state));
        } else if same_text(column, "CPU%") && process.cpu_percent.exceeds(50) {
            canvas.foreground(colors.warning);
        } else if same_text(column, "MEM%") && process.memory_percent.exceeds(50) {
            canvas.foreground(colors.warning);
        }
    }
    canvas.print(fit(content.as_str(), rect.width as usize));
    proof {
        assert(canvas@ =~= old(canvas)@ + cell_drawn(
            column@,
            rect,
            process@,
            y,
            selected,
            now,
            *colors,
        ));
    }
}

} // verus!
