//! The help overlay: a bordered box in the middle of the screen.

use crate::canvas::{Canvas, Draw};
use crate::colors::{Color, ColorScheme};
use crate::layout::{sat_add, sat_sub, Rect};
use crate::text::{chars_of, repeat, repeated, spaces};
use vstd::prelude::*;
use vstd::string::*;

verus! {

/// Number of lines of the help text.
pub const HELP_LINES: usize = 25;

/// Widest box drawn.
pub const MAX_BOX_WIDTH: u16 = 60;

/// Tallest box drawn.
pub const MAX_BOX_HEIGHT: u16 = 20;

/// The `i`th line of the help text.
pub open spec fn help_line(i: int) -> Seq<char> {
    if i == 0 {
        "                    SRMON HELP"@
    } else if i == 2 {
        "Navigation:"@
    } else if i == 3 {
        "  ↑/k, ↓/j         Move up/down in process list"@
    } else if i == 4 {
        "  Page Up/Down     Page up/down in process list"@
    } else if i == 5 {
        "  Home/End         Go to top/bottom of list"@
    } else if i == 7 {
        "Sorting:"@
    } else if i == 8 {
        "  s                Cycle sort (CPU% → MEM% → PID → NAME)"@
    } else if i == 10 {
        "Filtering:"@
    } else if i == 11 {
        "  /                Filter processes by name/command"@
    } else if i == 12 {
        "  Esc              Clear current filter"@
    } else if i == 14 {
        "Display:"@
    } else if i == 15 {
        "  c                Toggle column visibility"@
    } else if i == 16 {
        "  r                Change refresh rate"@
    } else if i == 17 {
        "  t                Toggle tree view"@
    } else if i == 19 {
        "Process Control:"@
    } else if i == 20 {
        "  k                Send SIGTERM to selected process"@
    } else if i == 22 {
        "Other:"@
    } else if i == 23 {
        "  ?                Show this help"@
    } else if i == 24 {
        "  q, Ctrl+C        Quit application"@
    } else {
        ""@
    }
}

/// The box of the overlay on a screen `area`: at most `MAX_BOX_WIDTH` by
/// `MAX_BOX_HEIGHT` cells, four less than the screen each way, centred.
pub open spec fn popup_rect(area: Rect) -> Rect {
    let width = if sat_sub(area.width as int, 4) < MAX_BOX_WIDTH {
        sat_sub(area.width as int, 4)
    } else {
        MAX_BOX_WIDTH as int
    };
    let height = if sat_sub(area.height as int, 4) < MAX_BOX_HEIGHT {
        sat_sub(area.height as int, 4)
    } else {
        MAX_BOX_HEIGHT as int
    };
    Rect {
        x: sat_add(area.x as int, (area.width - width) / 2) as u16,
        y: sat_add(area.y as int, (area.height - height) / 2) as u16,
        width: width as u16,
        height: height as u16,
    }
}

/// The first `count` rows of the box, blanked.
pub open spec fn blank_drawn(popup: Rect, colors: ColorScheme, count: nat) -> Seq<Draw>
    decreases count,
{
    if count == 0 {
        Seq::empty()
    } else {
        blank_drawn(popup, colors, (count - 1) as nat) + seq![
            Draw::MoveTo(popup.x, (popup.y + count - 1) as u16),
            Draw::Background(colors.background),
            Draw::Foreground(colors.foreground),
            Draw::Print(spaces(popup.width as nat)),
        ]
    }
}

/// Number of rows of the box that lie on the screen.
pub open spec fn box_rows(popup: Rect) -> nat {
    (popup.spec_bottom() - popup.y) as nat
}

/// The first `count` pairs of side strokes of the border of `area`.
pub open spec fn sides_drawn(area: Rect, count: nat) -> Seq<Draw>
    decreases count,
{
    if count == 0 {
        Seq::empty()
    } else {
        let y = (sat_add(area.y as int, 1) + count - 1) as u16;
        sides_drawn(area, (count - 1) as nat) + seq![
            Draw::MoveTo(area.x, y),
            Draw::Print("│"@),
            Draw::MoveTo(sat_sub(area.spec_right(), 1) as u16, y),
            Draw::Print("│"@),
        ]
    }
}

/// Number of rows between the top and the bottom stroke of the border.
pub open spec fn side_rows(area: Rect) -> nat {
    sat_sub(sat_sub(area.spec_bottom(), 1), sat_add(area.y as int, 1)) as nat
}

/// The border of `area`.
pub open spec fn border_drawn(area: Rect, colors: ColorScheme) -> Seq<Draw> {
    let stroke = repeated("─"@, sat_sub(area.width as int, 2) as nat);
    seq![
        Draw::Foreground(colors.border),
        Draw::Background(colors.background),
        Draw::MoveTo(area.x, area.y),
        Draw::Print("┌"@),
        Draw::Print(stroke),
        Draw::Print("┐"@),
    ] + sides_drawn(area, side_rows(area)) + seq![
        Draw::MoveTo(area.x, sat_sub(area.spec_bottom(), 1) as u16),
        Draw::Print("└"@),
        Draw::Print(stroke),
        Draw::Print("┘"@),
    ]
}

/// The colour of the `i`th line: the title in the accent colour, a line
/// that ends in a colon as a heading, every other line plain.
pub open spec fn line_color(i: int, colors: ColorScheme) -> Color {
    if i == 0 {
        colors.accent
    } else if help_line(i).len() > 0 && help_line(i).last() == ':' {
        colors.table_header
    } else {
        colors.foreground
    }
}

/// A line cut to `width` characters, without a mark.
pub open spec fn clipped(line: Seq<char>, width: nat) -> Seq<char> {
    if line.len() > width {
        line.take(width as int)
    } else {
        line
    }
}

/// The first `count` lines of the help text inside `content`.
pub open spec fn lines_drawn(content: Rect, colors: ColorScheme, count: nat) -> Seq<Draw>
    decreases count,
{
    if count == 0 {
        Seq::empty()
    } else {
        let i = count - 1;
        lines_drawn(content, colors, i as nat) + seq![
            Draw::MoveTo(content.x, sat_add(content.y as int, i) as u16),
            Draw::Foreground(line_color(i, colors)),
            Draw::Print(clipped(help_line(i), content.width as nat)),
        ]
    }
}

/// Number of lines of the help text that fit into `content`.
pub open spec fn lines_shown(content: Rect) -> nat {
    if content.height < HELP_LINES {
        content.height as nat
    } else {
        HELP_LINES as nat
    }
}

/// The hint on the bottom stroke of the box.
pub open spec fn close_hint_drawn(popup: Rect, colors: ColorScheme) -> Seq<Draw> {
    if popup.height > 2 {
        seq![
            Draw::MoveTo(
                sat_sub(sat_add(popup.x as int, popup.width as int), 20) as u16,
                sat_sub(sat_add(popup.y as int, popup.height as int), 1) as u16,
            ),
            Draw::Foreground(colors.muted),
            Draw::Print("Press ? to close"@),
        ]
    } else {
        Seq::empty()
    }
}

/// Help overlay widget.
pub struct HelpOverlay;

impl HelpOverlay {
    /// What the overlay draws on the screen `area`: the blanked box, its
    /// border, the help lines that fit inside, and the hint how to close it.
    pub open spec fn drawn(area: Rect, colors: ColorScheme) -> Seq<Draw> {
        let popup = popup_rect(area);
        let content = popup.spec_inner(1);
        blank_drawn(popup, colors, box_rows(popup)) + border_drawn(popup, colors) + lines_drawn(
            content,
            colors,
            lines_shown(content),
        ) + close_hint_drawn(popup, colors)
    }

    /// Draws the overlay over the screen `area`.
    pub fn render(&self, canvas: &mut Canvas, area: Rect, colors: &ColorScheme)
        ensures
            final(canvas)@ == old(canvas)@ + Self::drawn(area, *colors),
    {
        let popup_area = popup_of(area);
        draw_blank(canvas, popup_area, colors);
        self.render_border(canvas, popup_area, colors);
        let content_area = popup_area.inner(1);
        draw_lines(canvas, content_area, colors);
        draw_close_hint(canvas, popup_area, colors);
        proof {
            let a = blank_drawn(popup_area, *colors, box_rows(popup_area));
            let b = border_drawn(popup_area, *colors);
            let c = lines_drawn(content_area, *colors, lines_shown(content_area));
            let d = close_hint_drawn(popup_area, *colors);
            assert(((old(canvas)@ + a) + b) + c + d =~= old(canvas)@ + (a + b + c + d));
        }
    }

    fn render_border(&self, canvas: &mut Canvas, area: Rect, colors: &ColorScheme)
        ensures
            final(canvas)@ == old(canvas)@ + border_drawn(area, *colors),
    {
        canvas.foreground(colors.border);
        canvas.background(colors.background);
        let stroke_width = area.width.saturating_sub(2) as usize;
        canvas.move_to(area.x, area.y);
        canvas.print_str("┌");
        canvas.print(repeat("─", stroke_width));
        canvas.print_str("┐");
        let ghost topped = canvas@;
        let first: u16 = area.y.saturating_add(1);
        let last: u16 = area.bottom().saturating_sub(1);
        let right: u16 = area.right().saturating_sub(1);
        let mut y: u16 = first;
        while y < last
            invariant
                first <= y,
                y <= last || y == first,
                first == sat_add(area.y as int, 1),
                last == sat_sub(area.spec_bottom(), 1),
                right == sat_sub(area.spec_right(), 1),
                canvas@ == topped + sides_drawn(area, sat_sub(y as int, first as int) as nat),
            decreases last - y,
        {
            canvas.move_to(area.x, y);
            canvas.print_str("│");
            canvas.move_to(right, y);
            canvas.print_str("│");
            y += 1;
            proof {
                assert(canvas@ =~= topped + sides_drawn(
                    area,
                    sat_sub(y as int, first as int) as nat,
                ));
            }
        }
        canvas.move_to(area.x, last);
        canvas.print_str("└");
        canvas.print(repeat("─", stroke_width));
        canvas.print_str("┘");
        proof {
            assert(sat_sub(y as int, first as int) == side_rows(area));
            assert(canvas@ =~= old(canvas)@ + border_drawn(area, *colors));
        }
    }
}

/// The box of the overlay on a screen `area`.
pub fn popup_of(area: Rect) -> (r: Rect)
    ensures
        r == popup_rect(area),
{
    let inner_width = area.width.saturating_sub(4);
    let popup_width: u16 = if inner_width < MAX_BOX_WIDTH {
        inner_width
    } else {
        MAX_BOX_WIDTH
    };
    let inner_height = area.height.saturating_sub(4);
    let popup_height: u16 = if inner_height < MAX_BOX_HEIGHT {
        inner_height
    } else {
        MAX_BOX_HEIGHT
    };
    let popup_x = area.x.saturating_add((area.width - popup_width) / 2);
    let popup_y = area.y.saturating_add((area.height - popup_height) / 2);
    Rect::new(popup_x, popup_y, popup_width, popup_height)
}

fn draw_blank(canvas: &mut Canvas, popup_area: Rect, colors: &ColorScheme)
    ensures
        final(canvas)@ == old(canvas)@ + blank_drawn(popup_area, *colors, box_rows(popup_area)),
{
    let bottom = popup_area.bottom();
    let mut y: u16 = popup_area.y;
    while y < bottom
        invariant
            popup_area.y <= y <= bottom,
            bottom == popup_area.spec_bottom(),
            canvas@ == old(canvas)@ + blank_drawn(popup_area, *colors, (y - popup_area.y) as nat),
        decreases bottom - y,
    {
        canvas.move_to(popup_area.x, y);
        canvas.background(colors.background);
        canvas.foreground(colors.foreground);
        let mut blanks = String::new();
        crate::text::push_spaces(&mut blanks, popup_area.width as usize);
        proof {
            assert(blanks@ =~= spaces(popup_area.width as nat));
        }
        canvas.print(blanks);
        y += 1;
        proof {
            assert(canvas@ =~= old(canvas)@ + blank_drawn(
                popup_area,
                *colors,
                (y - popup_area.y) as nat,
            ));
        }
    }
}

fn draw_lines(canvas: &mut Canvas, content_area: Rect, colors: &ColorScheme)
    ensures
        final(canvas)@ == old(canvas)@ + lines_drawn(
            content_area,
            *colors,
            lines_shown(content_area),
        ),
{
    let shown: usize = if (content_area.height as usize) < HELP_LINES {
        content_area.height as usize
    } else {
        HELP_LINES
    };
    let mut i: usize = 0;
    while i < shown
        invariant
            i <= shown <= HELP_LINES,
            canvas@ == old(canvas)@ + lines_drawn(content_area, *colors, i as nat),
        decreases shown - i,
    {
        canvas.move_to(content_area.x, content_area.y.saturating_add(i as u16));
        let line = help_text(i);
        let letters = chars_of(line);
        let color = if i == 0 {
            colors.accent
        } else if letters.len() > 0 && letters[letters.len() - 1] == ':' {
            colors.table_header
        } else {
            colors.foreground
        };
        canvas.foreground(color);
        if letters.len() > content_area.width as usize {
            canvas.print_str(line.substring_char(0, content_area.width as usize));
        } else {
            canvas.print_str(line);
        }
        i += 1;
        proof {
            assert(canvas@ =~= old(canvas)@ + lines_drawn(content_area, *colors, i as nat));
        }
    }
}

fn draw_close_hint(canvas: &mut Canvas, popup_area: Rect, colors: &ColorScheme)
    ensures
        final(canvas)@ == old(canvas)@ + close_hint_drawn(popup_area, *colors),
{
    if popup_area.height > 2 {
        canvas.move_to(
            popup_area.x.saturating_add(popup_area.width).saturating_sub(20),
            popup_area.y.saturating_add(popup_area.height).saturating_sub(1),
        );
        canvas.foreground(colors.muted);
        canvas.print_str("Press ? to close");
    }
    proof {
        assert(canvas@ =~= old(canvas)@ + close_hint_drawn(popup_area, *colors));
    }
}

/// The `i`th line of the help text.
pub fn help_text(i: usize) -> (r: &'static str)
    ensures
        r@ == help_line(i as int),
{
    if i == 0 {
        "                    SRMON HELP"
    } else if i == 2 {
        "Navigation:"
    } else if i == 3 {
        "  ↑/k, ↓/j         Move up/down in process list"
    } else if i == 4 {
        "  Page Up/Down     Page up/down in process list"
    } else if i == 5 {
        "  Home/End         Go to top/bottom of list"
    } else if i == 7 {
        "Sorting:"
    } else if i == 8 {
        "  s                Cycle sort (CPU% → MEM% → PID → NAME)"
    } else if i == 10 {
        "Filtering:"
    } else if i == 11 {
        "  /                Filter processes by name/command"
    } else if i == 12 {
        "  Esc              Clear current filter"
    } else if i == 14 {
        "Display:"
    } else if i == 15 {
        "  c                Toggle column visibility"
    } else if i == 16 {
        "  r                Change refresh rate"
    } else if i == 17 {
        "  t                Toggle tree view"
    } else if i == 19 {
        "Process Control:"
    } else if i == 20 {
        "  k                Send SIGTERM to selected process"
    } else if i == 22 {
        "Other:"
    } else if i == 23 {
        "  ?                Show this help"
    } else if i == 24 {
        "  q, Ctrl+C        Quit application"
    } else {
        ""
    }
}

} // verus!
