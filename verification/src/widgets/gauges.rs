//! Usage gauges: the plain gauge, and the processor and memory gauges
//! built on it.

use crate::canvas::{Canvas, Draw};
use crate::colors::ColorScheme;
use crate::layout::{sat_add, Rect};
use crate::model::{CpuCore, MemoryInfo};
use crate::numbers::{fixed_text, Fixed};
use crate::text::{
    decimal, ellipsize, ellipsized, pad_left, pad_right, padded, padded_left, push_decimal,
};
use crate::units::{bytes_text, format_bytes};
use vstd::prelude::*;
use vstd::string::*;

verus! {

/// A whole gauge, in thousandths of a percent.
pub const FULL: i64 = 100_000;

/// Most cores that are listed one by one.
pub const MAX_LISTED_CORES: usize = 16;

/// Cells that one listed core takes.
pub const CORE_CELL_WIDTH: u16 = 8;

/// A percentage held between 0 and 100.
pub open spec fn clamped_percent(percentage: Fixed) -> Fixed {
    if percentage.thousandths < 0 {
        Fixed { thousandths: 0 }
    } else if percentage.thousandths > FULL {
        Fixed { thousandths: FULL }
    } else {
        percentage
    }
}

/// Cells of a gauge of `cells` cells that the percentage fills.
pub open spec fn filled_cells(percentage: Fixed, cells: nat) -> nat {
    ((clamped_percent(percentage).thousandths * cells) / (FULL as int)) as nat
}

/// `count` instructions that each print `glyph`.
pub open spec fn glyphs_drawn(glyph: Seq<char>, count: nat) -> Seq<Draw> {
    Seq::new(count, |i: int| Draw::Print(glyph))
}

/// The label line of a gauge.
pub open spec fn gauge_label(percentage: Fixed, label: Seq<char>) -> Seq<char> {
    fixed_text(clamped_percent(percentage).thousandths as int, 1) + "% - "@ + label
}

/// The title line of a gauge.
pub open spec fn gauge_title_drawn(area: Rect, title: Seq<char>, colors: ColorScheme) -> Seq<Draw> {
    seq![
        Draw::MoveTo(area.x, area.y),
        Draw::Foreground(colors.table_header),
        Draw::Background(colors.background),
        Draw::Print(padded(title, area.width as nat)),
    ]
}

/// The bar of a gauge: `filled` full cells of `cells` between brackets.
pub open spec fn gauge_bar_drawn(area: Rect, cells: nat, filled: nat, colors: ColorScheme) -> Seq<
    Draw,
> {
    seq![
        Draw::MoveTo(area.x, sat_add(area.y as int, 1) as u16),
        Draw::Foreground(colors.foreground),
        Draw::Print("["@),
        Draw::Background(colors.gauge_fill),
        Draw::Foreground(colors.background),
    ] + (glyphs_drawn("█"@, filled) + (seq![
        Draw::Background(colors.gauge_bg),
        Draw::Foreground(colors.muted),
    ] + (glyphs_drawn("░"@, (cells - filled) as nat) + seq![
        Draw::Background(colors.background),
        Draw::Foreground(colors.foreground),
        Draw::Print("]"@),
    ])))
}

/// The label line of a gauge, from three rows on.
pub open spec fn gauge_label_drawn(
    area: Rect,
    percentage: Fixed,
    label: Seq<char>,
    colors: ColorScheme,
) -> Seq<Draw> {
    if area.height > 2 {
        seq![
            Draw::MoveTo(area.x, sat_add(area.y as int, 2) as u16),
            Draw::Foreground(colors.muted),
            Draw::Print(ellipsized(gauge_label(percentage, label), area.width as nat)),
        ]
    } else {
        Seq::empty()
    }
}

/// Gauge widget for displaying usage percentages.
pub struct Gauge;

impl Gauge {
    /// What a gauge draws in `area`: nothing in less than two rows or three
    /// columns; else its title, the bar between brackets with the share of
    /// the percentage filled, and from three rows on the label line, cut
    /// where it is too long.
    pub open spec fn drawn(
        area: Rect,
        title: Seq<char>,
        percentage: Fixed,
        label: Seq<char>,
        colors: ColorScheme,
    ) -> Seq<Draw> {
        if area.height < 2 || area.width < 3 {
            Seq::empty()
        } else {
            let cells = (area.width - 2) as nat;
            gauge_title_drawn(area, title, colors) + (gauge_bar_drawn(
                area,
                cells,
                filled_cells(percentage, cells),
                colors,
            ) + gauge_label_drawn(area, percentage, label, colors))
        }
    }

    /// Draws the gauge into `area`.
    pub fn render(
        &self,
        canvas: &mut Canvas,
        area: Rect,
        title: &str,
        percentage: Fixed,
        label: &str,
        colors: &ColorScheme,
    )
        ensures
            final(canvas)@ == old(canvas)@ + Self::drawn(
                area,
                title@,
                percentage,
                label@,
                *colors,
            ),
    {
        if area.height < 2 || area.width < 3 {
            proof {
                assert(canvas@ =~= old(canvas)@ + Seq::<Draw>::empty());
            }
            return ;
        }
        let cells: u16 = area.width - 2;
        let filled = fill_of(percentage, cells);
        draw_gauge_title(canvas, area, title, colors);
        draw_gauge_bar(canvas, area, cells, filled, colors);
        draw_gauge_label(canvas, area, percentage, label, colors);
        proof {
            let a = gauge_title_drawn(area, title@, *colors);
            let b = gauge_bar_drawn(area, cells as nat, filled as nat, *colors);
            let c = gauge_label_drawn(area, percentage, label@, *colors);
            crate::canvas::lemma_regroup(old(canvas)@ + a, b, c);
            crate::canvas::lemma_regroup(old(canvas)@, a, b + c);
        }
    }
}

/// Cells of a gauge of `cells` cells that the percentage fills.
pub fn fill_of(percentage: Fixed, cells: u16) -> (filled: u16)
    ensures
        filled == filled_cells(percentage, cells as nat),
        filled <= cells,
{
    let clamped = clamp_percent(percentage);
    proof {
        assert(clamped.thousandths * cells <= 100_000 * 65535) by (nonlinear_arith)
            requires
                0 <= clamped.thousandths <= 100_000,
                cells <= 65535,
        ;
        assert(0 <= clamped.thousandths * cells) by (nonlinear_arith)
            requires
                0 <= clamped.thousandths,
                0 <= cells,
        ;
        assert((clamped.thousandths * cells) / 100_000 <= cells) by (nonlinear_arith)
            requires
                0 <= clamped.thousandths <= 100_000,
                0 <= cells,
        ;
    }
    ((clamped.thousandths * cells as i64) / FULL) as u16
}

fn draw_gauge_title(canvas: &mut Canvas, area: Rect, title: &str, colors: &ColorScheme)
    ensures
        final(canvas)@ == old(canvas)@ + gauge_title_drawn(area, title@, *colors),
{
    canvas.move_to(area.x, area.y);
    canvas.foreground(colors.table_header);
    canvas.background(colors.background);
    canvas.print(pad_right(title, area.width as usize));
    proof {
        assert(canvas@ =~= old(canvas)@ + gauge_title_drawn(area, title@, *colors));
    }
}

fn draw_gauge_bar(canvas: &mut Canvas, area: Rect, cells: u16, filled: u16, colors: &ColorScheme)
    requires
        filled <= cells,
    ensures
        final(canvas)@ == old(canvas)@ + gauge_bar_drawn(
            area,
            cells as nat,
            filled as nat,
            *colors,
        ),
{
    canvas.move_to(area.x, area.y.saturating_add(1));
    canvas.foreground(colors.foreground);
    canvas.print_str("[");
    canvas.background(colors.gauge_fill);
    canvas.foreground(colors.background);
    let ghost opened = canvas@;
    let ghost a = seq![
        Draw::MoveTo(area.x, sat_add(area.y as int, 1) as u16),
        Draw::Foreground(colors.foreground),
        Draw::Print("["@),
        Draw::Background(colors.gauge_fill),
        Draw::Foreground(colors.background),
    ];
    proof {
        assert(opened =~= old(canvas)@ + a);
    }
    draw_glyphs(canvas, "█", filled);
    let ghost full = canvas@;
    canvas.background(colors.gauge_bg);
    canvas.foreground(colors.muted);
    let ghost c = seq![Draw::Background(colors.gauge_bg), Draw::Foreground(colors.muted)];
    let ghost switched = canvas@;
    proof {
        assert(switched =~= full + c);
    }
    draw_glyphs(canvas, "░", cells - filled);
    let ghost rest = canvas@;
    canvas.background(colors.background);
    canvas.foreground(colors.foreground);
    canvas.print_str("]");
    proof {
        let b = glyphs_drawn("█"@, filled as nat);
        let d = glyphs_drawn("░"@, (cells - filled) as nat);
        let e = seq![
            Draw::Background(colors.background),
            Draw::Foreground(colors.foreground),
            Draw::Print("]"@),
        ];
        assert(canvas@ =~= rest + e);
        let start = old(canvas)@;
        crate::canvas::lemma_regroup(start + a + b + c, d, e);
        crate::canvas::lemma_regroup(start + a + b, c, d + e);
        crate::canvas::lemma_regroup(start + a, b, c + (d + e));
        crate::canvas::lemma_regroup(start, a, b + (c + (d + e)));
    }
}

fn draw_gauge_label(
    canvas: &mut Canvas,
    area: Rect,
    percentage: Fixed,
    label: &str,
    colors: &ColorScheme,
)
    ensures
        final(canvas)@ == old(canvas)@ + gauge_label_drawn(area, percentage, label@, *colors),
{
    if area.height > 2 {
        canvas.move_to(area.x, area.y.saturating_add(2));
        canvas.foreground(colors.muted);
        let mut label_text = clamp_percent(percentage).format(1);
        label_text.append("% - ");
        label_text.append(label);
        canvas.print(ellipsize(label_text.as_str(), area.width as usize));
    }
    proof {
        assert(canvas@ =~= old(canvas)@ + gauge_label_drawn(area, percentage, label@, *colors));
    }
}

/// A percentage held between 0 and 100.
pub fn clamp_percent(percentage: Fixed) -> (r: Fixed)
    ensures
        r == clamped_percent(percentage),
        0 <= r.thousandths <= FULL,
{
    if percentage.thousandths < 0 {
        Fixed { thousandths: 0 }
    } else if percentage.thousandths > FULL {
        Fixed { thousandths: FULL }
    } else {
        percentage
    }
}

fn draw_glyphs(canvas: &mut Canvas, glyph: &str, count: u16)
    ensures
        final(canvas)@ == old(canvas)@ + glyphs_drawn(glyph@, count as nat),
{
    let mut i: u16 = 0;
    while i < count
        invariant
            i <= count,
            canvas@ == old(canvas)@ + glyphs_drawn(glyph@, i as nat),
        decreases count - i,
    {
        canvas.print_str(glyph);
        i += 1;
        proof {
            assert(canvas@ =~= old(canvas)@ + glyphs_drawn(glyph@, i as nat));
        }
    }
    proof {
        assert(canvas@ =~= old(canvas)@ + glyphs_drawn(glyph@, count as nat));
    }
}

/// Sum of the usage shares of `cores`, in thousandths of a percent.
pub open spec fn usage_sum(cores: Seq<CpuCore>) -> int
    decreases cores.len(),
{
    if cores.len() == 0 {
        0
    } else {
        usage_sum(cores.drop_last()) + cores.last().usage_percent.thousandths
    }
}

/// `sum / count`, rounded towards zero.
pub open spec fn quotient_towards_zero(sum: int, count: int) -> int {
    if sum >= 0 {
        sum / count
    } else {
        -((-sum) / count)
    }
}

/// The mean usage of `cores`, rounded towards zero to a thousandth of a
/// percent and held at the range of the number type; zero without a core.
pub open spec fn overall_usage(cores: Seq<CpuCore>) -> Fixed {
    let mean = if cores.len() == 0 {
        0
    } else {
        quotient_towards_zero(usage_sum(cores), cores.len() as int)
    };
    Fixed {
        thousandths: if mean > i64::MAX {
            i64::MAX
        } else if mean < i64::MIN {
            i64::MIN
        } else {
            mean as i64
        },
    }
}

/// What is shown of one core: its number and its usage in whole percent.
pub open spec fn core_text(core: CpuCore) -> Seq<char> {
    "C"@ + decimal(core.id as nat) + ":"@ + padded_left(
        fixed_text(core.usage_percent.thousandths as int, 0),
        3,
    ) + "% "@
}

/// Cores listed on one row of an area `width` cells wide.
pub open spec fn cores_per_row(width: u16) -> nat {
    (width / CORE_CELL_WIDTH) as nat
}

/// The first `count` cores of the list below the gauge; a new row begins
/// when the row is full and the next row still lies in the area.
pub open spec fn cores_drawn(area: Rect, cores: Seq<CpuCore>, colors: ColorScheme, count: nat)
    -> Seq<Draw>
    decreases count,
{
    if count == 0 {
        Seq::empty()
    } else {
        let i = (count - 1) as nat;
        let per_row = cores_per_row(area.width);
        cores_drawn(area, cores, colors, i) + if i > 0 && per_row > 0 && i % per_row == 0
            && area.y + 3 + i / per_row < area.spec_bottom() {
            seq![Draw::MoveTo(area.x, (area.y + 3 + i / per_row) as u16)]
        } else {
            Seq::empty()
        } + seq![
            Draw::Foreground(colors.cpu_color(cores[i as int].usage_percent)),
            Draw::Print(core_text(cores[i as int])),
            Draw::Foreground(colors.muted),
        ]
    }
}

/// CPU gauges widget.
pub struct CpuGauges;

impl CpuGauges {
    /// What the processor gauges draw in `area`: nothing without a core or
    /// in less than two rows; else the gauge of the mean usage, and from
    /// four rows on, for up to sixteen cores, each core's usage.
    pub open spec fn drawn(area: Rect, cores: Seq<CpuCore>, colors: ColorScheme) -> Seq<Draw> {
        if cores.len() == 0 || area.height < 2 {
            Seq::empty()
        } else {
            Gauge::drawn(
                area,
                "CPU"@,
                overall_usage(cores),
                decimal(cores.len()) + " cores"@,
                colors,
            ) + if area.height > 3 && cores.len() <= MAX_LISTED_CORES {
                seq![
                    Draw::MoveTo(area.x, sat_add(area.y as int, 3) as u16),
                    Draw::Foreground(colors.muted),
                ] + cores_drawn(area, cores, colors, cores.len())
            } else {
                Seq::empty()
            }
        }
    }

    /// Draws the processor gauges into `area`.
    pub fn render(
        &self,
        canvas: &mut Canvas,
        area: Rect,
        cpu_cores: &Vec<CpuCore>,
        colors: &ColorScheme,
    )
        ensures
            final(canvas)@ == old(canvas)@ + Self::drawn(area, cpu_cores@, *colors),
    {
        if cpu_cores.len() == 0 || area.height < 2 {
            proof {
                assert(canvas@ =~= old(canvas)@ + Self::drawn(area, cpu_cores@, *colors));
            }
            return ;
        }
        let overall = mean_usage(cpu_cores);
        let gauge = Gauge;
        let mut cores_info = String::new();
        push_decimal(&mut cores_info, cpu_cores.len() as u64);
        cores_info.append(" cores");
        proof {
            assert(cores_info@ =~= decimal(cpu_cores@.len()) + " cores"@);
        }
        gauge.render(canvas, area, "CPU", overall, cores_info.as_str(), colors);
        if area.height > 3 && cpu_cores.len() <= MAX_LISTED_CORES {
            canvas.move_to(area.x, area.y.saturating_add(3));
            canvas.foreground(colors.muted);
            let ghost opened = canvas@;
            let per_row: usize = (area.width / CORE_CELL_WIDTH) as usize;
            let bottom = area.bottom();
            let mut i: usize = 0;
            while i < cpu_cores.len()
                invariant
                    i <= cpu_cores.len() <= MAX_LISTED_CORES,
                    per_row == cores_per_row(area.width),
                    bottom == area.spec_bottom(),
                    canvas@ == opened + cores_drawn(area, cpu_cores@, *colors, i as nat),
                decreases cpu_cores.len() - i,
            {
                let core = &cpu_cores[i];
                if i > 0 && per_row > 0 && i % per_row == 0 {
                    let row: u32 = area.y as u32 + 3 + (i / per_row) as u32;
                    if row < bottom as u32 {
                        canvas.move_to(area.x, row as u16);
                    }
                }
                canvas.foreground(colors.cpu_usage_color(core.usage_percent));
                let mut text = String::from_str("C");
                push_decimal(&mut text, core.id as u64);
                text.append(":");
                text.append(pad_left(core.usage_percent.format(0).as_str(), 3).as_str());
                text.append("% ");
                proof {
                    assert(text@ =~= core_text(*core));
                }
                canvas.print(text);
                canvas.foreground(colors.muted);
                i += 1;
                proof {
                    assert(canvas@ =~= opened + cores_drawn(area, cpu_cores@, *colors, i as nat));
                }
            }
        }
        proof {
            assert(canvas@ =~= old(canvas)@ + Self::drawn(area, cpu_cores@, *colors));
        }
    }
}

/// The mean usage of `cores`.
pub fn mean_usage(cores: &Vec<CpuCore>) -> (r: Fixed)
    ensures
        r == overall_usage(cores@),
{
    if cores.len() == 0 {
        return Fixed { thousandths: 0 };
    }
    let mut sum: i128 = 0;
    let mut i: usize = 0;
    while i < cores.len()
        invariant
            i <= cores.len(),
            sum == usage_sum(cores@.take(i as int)),
            -0x8000_0000_0000_0000 * i <= sum <= 0x7fff_ffff_ffff_ffff * i,
        decreases cores.len() - i,
    {
        proof {
            assert(cores@.take(i + 1).drop_last() =~= cores@.take(i as int));
        }
        sum = sum + cores[i].usage_percent.thousandths as i128;
        i += 1;
    }
    proof {
        assert(cores@.take(cores.len() as int) =~= cores@);
    }
    let count: i128 = cores.len() as i128;
    let mean: i128 = if sum >= 0 {
        sum / count
    } else {
        -((-sum) / count)
    };
    if mean > i64::MAX as i128 {
        Fixed { thousandths: i64::MAX }
    } else if mean < i64::MIN as i128 {
        Fixed { thousandths: i64::MIN }
    } else {
        Fixed { thousandths: mean as i64 }
    }
}

/// The share `part` of `whole` as a percentage, rounded down to a
/// thousandth of a percent and held at the range of the number type; zero
/// where the whole is zero.
pub open spec fn share_of(part: u64, whole: u64) -> Fixed {
    if whole == 0 {
        Fixed { thousandths: 0 }
    } else if (part * 100_000) / (whole as int) > i64::MAX {
        Fixed { thousandths: i64::MAX }
    } else {
        Fixed { thousandths: ((part * 100_000) / (whole as int)) as i64 }
    }
}

/// The label of a memory gauge.
pub open spec fn memory_label(used: u64, total: u64) -> Seq<char> {
    bytes_text(used) + " / "@ + bytes_text(total)
}

/// Memory gauges widget.
pub struct MemoryGauges;

impl MemoryGauges {
    /// What the memory gauges draw in `area`: nothing in less than two
    /// rows; else the gauge of the memory in use, and from four rows on,
    /// where there is swap, the swap gauge in the one row below it.
    pub open spec fn drawn(area: Rect, memory: MemoryInfo, colors: ColorScheme) -> Seq<Draw> {
        if area.height < 2 {
            Seq::empty()
        } else {
            Gauge::drawn(
                area,
                "Memory"@,
                share_of(memory.used, memory.total),
                memory_label(memory.used, memory.total),
                colors,
            ) + if area.height > 3 && memory.swap_total > 0 {
                Gauge::drawn(
                    Rect {
                        x: area.x,
                        y: sat_add(area.y as int, 3) as u16,
                        width: area.width,
                        height: 1,
                    },
                    "Swap"@,
                    share_of(memory.swap_used, memory.swap_total),
                    memory_label(memory.swap_used, memory.swap_total),
                    colors,
                )
            } else {
                Seq::empty()
            }
        }
    }

    /// Draws the memory gauges into `area`.
    pub fn render(
        &self,
        canvas: &mut Canvas,
        area: Rect,
        memory: &MemoryInfo,
        colors: &ColorScheme,
    )
        ensures
            final(canvas)@ == old(canvas)@ + Self::drawn(area, *memory, *colors),
    {
        if area.height < 2 {
            proof {
                assert(canvas@ =~= old(canvas)@ + Self::drawn(area, *memory, *colors));
            }
            return ;
        }
        let memory_usage = share(memory.used, memory.total);
        let memory_label = label_of(memory.used, memory.total);
        let gauge = Gauge;
        gauge.render(canvas, area, "Memory", memory_usage, memory_label.as_str(), colors);
        if area.height > 3 && memory.swap_total > 0 {
            let swap_usage = share(memory.swap_used, memory.swap_total);
            let swap_label = label_of(memory.swap_used, memory.swap_total);
            let swap_area = Rect::new(area.x, area.y.saturating_add(3), area.width, 1);
            gauge.render(canvas, swap_area, "Swap", swap_usage, swap_label.as_str(), colors);
        }
        proof {
            assert(canvas@ =~= old(canvas)@ + Self::drawn(area, *memory, *colors));
        }
    }
}

/// The share `part` of `whole` as a percentage.
pub fn share(part: u64, whole: u64) -> (r: Fixed)
    ensures
        r == share_of(part, whole),
{
    if whole == 0 {
        Fixed { thousandths: 0 }
    } else {
        let scaled: u128 = (part as u128 * 100_000) / whole as u128;
        if scaled > i64::MAX as u128 {
            Fixed { thousandths: i64::MAX }
        } else {
            Fixed { thousandths: scaled as i64 }
        }
    }
}

fn label_of(used: u64, total: u64) -> (r: String)
    ensures
        r@ == memory_label(used, total),
{
    let mut r = format_bytes(used);
    r.append(" / ");
    r.append(format_bytes(total).as_str());
    r
}

} // verus!
