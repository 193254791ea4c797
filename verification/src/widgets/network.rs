//! The network panel: total rates with bars, then one row per interface.

use crate::canvas::{Canvas, Draw};
use crate::colors::{Color, ColorScheme};
use crate::layout::{sat_add, sat_sub, Rect};
use crate::model::NetworkInfo;
use crate::order::{
    lemma_sorted_len, lemma_sorted_mapped, ranks, sort_by_rule, stable_sorted, Rank, SortRule,
};
use crate::text::{
    char_count, contains, contains_text, decimal, ellipsis, pad_right, padded, push_decimal,
    push_spaces, repeat, repeated, spaces, starts_with, starts_with_text, text_before,
};
use crate::units::{format_rate, rate_text};
use vstd::prelude::*;
use vstd::string::*;

verus! {

/// Width of the two bars of the totals line.
pub const TOTAL_BAR_WIDTH: u64 = 15;

/// Width of the two bars of an interface's row.
pub const ROW_BAR_WIDTH: u64 = 8;

/// Rate below which every bar is scaled as if the peak were this.
pub const MIN_PEAK_RATE: u64 = 1000;

/// Widest rule drawn under the title.
pub const MAX_RULE_WIDTH: u16 = 80;

/// `total`, held at the largest 64-bit value.
pub open spec fn capped(total: nat) -> u64 {
    if total > u64::MAX {
        u64::MAX
    } else {
        total as u64
    }
}

/// Bytes received on all of `networks` since the previous snapshot.
pub open spec fn received_sum(networks: Seq<NetworkInfo>) -> nat
    decreases networks.len(),
{
    if networks.len() == 0 {
        0
    } else {
        received_sum(networks.drop_last()) + networks.last().rx_bytes_delta as nat
    }
}

/// Bytes sent on all of `networks` since the previous snapshot.
pub open spec fn sent_sum(networks: Seq<NetworkInfo>) -> nat
    decreases networks.len(),
{
    if networks.len() == 0 {
        0
    } else {
        sent_sum(networks.drop_last()) + networks.last().tx_bytes_delta as nat
    }
}

/// The largest delta, received or sent, of any of `networks`.
pub open spec fn largest_delta(networks: Seq<NetworkInfo>) -> nat
    decreases networks.len(),
{
    if networks.len() == 0 {
        0
    } else {
        let rest = largest_delta(networks.drop_last());
        let own = if networks.last().rx_bytes_delta >= networks.last().tx_bytes_delta {
            networks.last().rx_bytes_delta as nat
        } else {
            networks.last().tx_bytes_delta as nat
        };
        if rest >= own {
            rest
        } else {
            own
        }
    }
}

/// The rate that fills a bar: `rate`, but not less than `MIN_PEAK_RATE`.
pub open spec fn peak_of(rate: nat) -> nat {
    if rate < MIN_PEAK_RATE {
        MIN_PEAK_RATE as nat
    } else {
        rate
    }
}

/// Cells of a bar of `width` cells that `rate` fills when `peak` fills it.
pub open spec fn bar_cells(rate: nat, peak: nat, width: nat) -> nat {
    if (rate * width) / peak > width {
        width
    } else {
        (rate * width) / peak
    }
}

/// Cells that an interface's rate fills in its row: none when idle, else at
/// least one.
pub open spec fn row_cells(rate: nat, peak: nat) -> nat {
    if rate == 0 {
        0
    } else if bar_cells(rate, peak, ROW_BAR_WIDTH as nat) < 1 {
        1
    } else {
        bar_cells(rate, peak, ROW_BAR_WIDTH as nat)
    }
}

/// Whether an interface moved any byte since the previous snapshot.
pub open spec fn is_active(net: NetworkInfo) -> bool {
    net.rx_bytes_delta > 0 || net.tx_bytes_delta > 0
}

/// Whether either delta of `net` is above `level`.
pub open spec fn above(net: NetworkInfo, level: nat) -> bool {
    net.rx_bytes_delta > level || net.tx_bytes_delta > level
}

/// The three dots of the title that show the total activity.
pub open spec fn activity_dots(rx: u64, tx: u64) -> Seq<char> {
    if rx > 0 || tx > 0 {
        if rx > 1_000_000 || tx > 1_000_000 {
            "●●●"@
        } else if rx > 100_000 || tx > 100_000 {
            "●●○"@
        } else {
            "●○○"@
        }
    } else {
        "○○○"@
    }
}

/// The colour of the activity dots.
pub open spec fn activity_color(rx: u64, tx: u64, colors: ColorScheme) -> Color {
    if rx > 0 || tx > 0 {
        if rx > 1_000_000 || tx > 1_000_000 {
            colors.error
        } else if rx > 100_000 || tx > 100_000 {
            colors.warning
        } else {
            colors.success
        }
    } else {
        colors.muted
    }
}

/// The title behind the dots.
pub open spec fn title_text(count: nat) -> Seq<char> {
    " NETWORK ("@ + decimal(count) + " interfaces)"@
}

/// The title line: the dots, then the title filled to the width of the
/// area, or cut with an ellipsis where the line is too narrow.
pub open spec fn title_drawn(area: Rect, count: nat, rx: u64, tx: u64, colors: ColorScheme) -> Seq<
    Draw,
> {
    let title = title_text(count);
    let full = activity_dots(rx, tx).len() + title.len();
    seq![
        Draw::MoveTo(area.x, area.y),
        Draw::Foreground(colors.table_header),
        Draw::Background(colors.background),
        Draw::Foreground(activity_color(rx, tx, colors)),
        Draw::Print(activity_dots(rx, tx)),
        Draw::Foreground(colors.table_header),
    ] + if full < area.width {
        seq![Draw::Print(title), Draw::Print(spaces((area.width - full) as nat))]
    } else {
        seq![Draw::Print(title.take(cut_length(area.width as nat, title.len())) + ellipsis())]
    }
}

/// Characters kept of a title of `len` characters on a line of `width`
/// cells that is too narrow for it: seven less than the width.
pub open spec fn cut_length(width: nat, len: nat) -> int {
    if sat_sub(width as int, 7) > len {
        len as int
    } else {
        sat_sub(width as int, 7)
    }
}

/// The rule under the title.
pub open spec fn rule_drawn(area: Rect, colors: ColorScheme) -> Seq<Draw> {
    let width = if area.width < MAX_RULE_WIDTH {
        area.width
    } else {
        MAX_RULE_WIDTH
    };
    seq![
        Draw::MoveTo(area.x, sat_add(area.y as int, 1) as u16),
        Draw::Foreground(colors.muted),
        Draw::Print(repeated("─"@, width as nat)),
    ]
}

/// A bar of the totals line.
pub open spec fn total_bar(rate: u64, peak: nat) -> Seq<char> {
    let cells = bar_cells(rate as nat, peak, TOTAL_BAR_WIDTH as nat);
    repeated("▓"@, cells) + repeated("░"@, (TOTAL_BAR_WIDTH - cells) as nat)
}

/// A rate as the totals line shows it.
pub open spec fn per_second(rate: u64) -> Seq<char> {
    " "@ + rate_text(rate) + "/s"@
}

/// The totals line: the download bar and rate, then, where the line is wide
/// enough, the upload bar and rate, then blanks to the end of the line.
pub open spec fn totals_drawn(area: Rect, rx: u64, tx: u64, colors: ColorScheme) -> Seq<Draw> {
    let peak = peak_of(
        if rx >= tx {
            rx as nat
        } else {
            tx as nat
        },
    );
    seq![
        Draw::MoveTo(area.x, sat_add(area.y as int, 2) as u16),
        Draw::Foreground(colors.accent),
        Draw::Foreground(colors.success),
        Draw::Print("⬇ "@),
        Draw::Print(total_bar(rx, peak)),
        Draw::Print(per_second(rx)),
    ] + upload_drawn(area, rx, tx, peak, colors)
}

/// The rest of the totals line behind the download rate.
pub open spec fn upload_drawn(area: Rect, rx: u64, tx: u64, peak: nat, colors: ColorScheme) -> Seq<
    Draw,
> {
    let down_len = 2 + TOTAL_BAR_WIDTH + per_second(rx).len();
    let both_len = down_len + 25 + per_second(tx).len();
    if area.width > down_len + 25 {
        seq![
            Draw::Print("   "@),
            Draw::Foreground(colors.warning),
            Draw::Print("⬆ "@),
            Draw::Print(total_bar(tx, peak)),
            Draw::Print(per_second(tx)),
        ] + if area.width > both_len {
            seq![Draw::Print(spaces((area.width - both_len) as nat))]
        } else {
            Seq::empty()
        }
    } else if area.width > down_len {
        seq![Draw::Print(spaces((area.width - down_len) as nat))]
    } else {
        Seq::empty()
    }
}

/// The mark in front of an interface's name.
pub open spec fn status_icon(net: NetworkInfo) -> Seq<char> {
    if is_active(net) {
        if above(net, 10_000_000) {
            "◉"@
        } else if above(net, 1_000_000) {
            "◎"@
        } else if above(net, 100_000) {
            "◐"@
        } else {
            "◯"@
        }
    } else {
        "○"@
    }
}

/// The colour of the mark.
pub open spec fn status_color(net: NetworkInfo, colors: ColorScheme) -> Color {
    if is_active(net) {
        if above(net, 10_000_000) {
            colors.error
        } else if above(net, 1_000_000) {
            colors.warning
        } else if above(net, 100_000) {
            colors.accent
        } else {
            colors.success
        }
    } else {
        colors.muted
    }
}

/// The colour of an interface's name: wired, wireless, or other.
pub open spec fn name_color(name: Seq<char>, colors: ColorScheme) -> Color {
    if starts_with_text(name, "en"@) || starts_with_text(name, "eth"@) {
        colors.success
    } else if starts_with_text(name, "wl"@) || contains_text(name, "wifi"@) {
        colors.accent
    } else {
        colors.muted
    }
}

/// The two rates of an interface as its row shows them.
pub open spec fn rate_pair(net: NetworkInfo) -> Seq<char> {
    " "@ + rate_text(net.rx_bytes_delta) + "/"@ + rate_text(net.tx_bytes_delta)
}

/// The bars and rates of an interface's row, behind its name.
pub open spec fn bars_drawn(net: NetworkInfo, peak: nat, colors: ColorScheme) -> Seq<Draw> {
    if is_active(net) {
        let down = row_cells(net.rx_bytes_delta as nat, peak);
        let up = row_cells(net.tx_bytes_delta as nat, peak);
        seq![
            Draw::Foreground(colors.success),
            Draw::Print(" ⬇"@),
            Draw::Print(repeated("█"@, down)),
            Draw::Foreground(colors.muted),
            Draw::Print(repeated("▁"@, (ROW_BAR_WIDTH - down) as nat)),
            Draw::Foreground(colors.warning),
            Draw::Print(" ⬆"@),
            Draw::Print(repeated("█"@, up)),
            Draw::Foreground(colors.muted),
            Draw::Print(repeated("▁"@, (ROW_BAR_WIDTH - up) as nat)),
            Draw::Foreground(colors.foreground),
            Draw::Print(rate_pair(net)),
        ]
    } else {
        seq![
            Draw::Foreground(colors.muted),
            Draw::Print(" ⬇"@),
            Draw::Print(repeated("▁"@, ROW_BAR_WIDTH as nat)),
            Draw::Print(" ⬆"@),
            Draw::Print(repeated("▁"@, ROW_BAR_WIDTH as nat)),
            Draw::Print(" [idle]"@),
        ]
    }
}

/// Cells that the row of `net` takes up.
pub open spec fn row_used(net: NetworkInfo) -> nat {
    (29 + if is_active(net) {
        rate_pair(net).len()
    } else {
        7
    }) as nat
}

/// The row of the interface `net`, the `index`th below the totals line.
pub open spec fn row_drawn(
    area: Rect,
    net: NetworkInfo,
    index: nat,
    peak: nat,
    colors: ColorScheme,
) -> Seq<Draw> {
    seq![
        Draw::MoveTo(area.x, sat_add(sat_add(area.y as int, 3), index as int) as u16),
        Draw::Foreground(status_color(net, colors)),
        Draw::Print(status_icon(net)),
        Draw::Foreground(name_color(net.interface_name@, colors)),
        Draw::Print(padded(net.interface_name@, 8)),
    ] + bars_drawn(net, peak, colors) + if area.width > row_used(net) {
        seq![Draw::Print(spaces((area.width - row_used(net)) as nat))]
    } else {
        Seq::empty()
    }
}

/// The first `count` rows of the interfaces `sorted`.
pub open spec fn rows_drawn(
    area: Rect,
    sorted: Seq<NetworkInfo>,
    count: nat,
    peak: nat,
    colors: ColorScheme,
) -> Seq<Draw>
    decreases count,
{
    if count == 0 {
        Seq::empty()
    } else {
        rows_drawn(area, sorted, (count - 1) as nat, peak, colors) + row_drawn(
            area,
            sorted[count - 1],
            (count - 1) as nat,
            peak,
            colors,
        )
    }
}

/// The rank by which the rows are ordered: active interfaces first, then
/// by name.
pub open spec fn activity_rank(net: NetworkInfo) -> Rank {
    Rank {
        number: if is_active(net) {
            0
        } else {
            1
        },
        text: net.interface_name@,
    }
}

/// The interfaces in the order of their rows.
pub open spec fn row_order(networks: Seq<NetworkInfo>) -> Seq<NetworkInfo> {
    stable_sorted(networks, |net: NetworkInfo| activity_rank(net), false)
}

/// Number of interface rows that fit below the totals line.
pub open spec fn rows_shown(area: Rect, count: nat) -> nat {
    if count < sat_sub(area.height as int, 3) {
        count
    } else {
        sat_sub(area.height as int, 3) as nat
    }
}

/// Orders the positions of a list of interfaces for display.
pub struct ByActivity<'a> {
    pub list: &'a Vec<NetworkInfo>,
}

impl<'a> SortRule<usize> for ByActivity<'a> {
    open spec fn rank(&self, item: usize) -> Rank {
        activity_rank(self.list@[item as int])
    }

    open spec fn descending(&self) -> bool {
        false
    }

    open spec fn admits(&self, item: usize) -> bool {
        item < self.list@.len()
    }

    fn before(&self, a: &usize, b: &usize) -> (r: bool) {
        let first = &self.list[*a];
        let second = &self.list[*b];
        let a_active = first.rx_bytes_delta > 0 || first.tx_bytes_delta > 0;
        let b_active = second.rx_bytes_delta > 0 || second.tx_bytes_delta > 0;
        if a_active && !b_active {
            true
        } else if !a_active && b_active {
            false
        } else {
            text_before(first.interface_name.as_str(), second.interface_name.as_str())
        }
    }
}

/// Network panel widget.
pub struct NetworkGauges;

impl NetworkGauges {
    /// What the panel draws in `area`: nothing in less than two rows; else
    /// the title and the rule, from three rows on the totals line, and below
    /// it as many interface rows as fit, active interfaces first.
    pub open spec fn drawn(area: Rect, networks: Seq<NetworkInfo>, colors: ColorScheme) -> Seq<
        Draw,
    > {
        let rx = capped(received_sum(networks));
        let tx = capped(sent_sum(networks));
        if area.height < 2 {
            Seq::empty()
        } else {
            title_drawn(area, networks.len(), rx, tx, colors) + rule_drawn(area, colors)
                + if area.height >= 3 {
                totals_drawn(area, rx, tx, colors) + if area.height > 3 && networks.len() > 0 {
                    rows_drawn(
                        area,
                        row_order(networks),
                        rows_shown(area, networks.len()),
                        peak_of(largest_delta(networks)),
                        colors,
                    )
                } else {
                    Seq::empty()
                }
            } else {
                Seq::empty()
            }
        }
    }

    /// Draws the panel into `area`.
    pub fn render(
        &self,
        canvas: &mut Canvas,
        area: Rect,
        networks: &Vec<NetworkInfo>,
        colors: &ColorScheme,
    )
        ensures
            final(canvas)@ == old(canvas)@ + Self::drawn(area, networks@, *colors),
    {
        if area.height < 2 {
            proof {
                assert(canvas@ =~= old(canvas)@ + Self::drawn(area, networks@, *colors));
            }
            return ;
        }
        let (rx, tx) = rate_totals(networks);
        draw_title(canvas, area, networks.len(), rx, tx, colors);
        draw_rule(canvas, area, colors);
        if area.height >= 3 {
            draw_totals(canvas, area, rx, tx, colors);
            if area.height > 3 && networks.len() > 0 {
                draw_rows(canvas, area, networks, colors);
            }
        }
        proof {
            assert(canvas@ =~= old(canvas)@ + Self::drawn(area, networks@, *colors));
        }
    }
}

/// The two total rates, each held at the largest 64-bit value.
fn rate_totals(networks: &Vec<NetworkInfo>) -> (r: (u64, u64))
    ensures
        r.0 == capped(received_sum(networks@)),
        r.1 == capped(sent_sum(networks@)),
{
    let mut rx: u64 = 0;
    let mut tx: u64 = 0;
    let mut i: usize = 0;
    while i < networks.len()
        invariant
            i <= networks.len(),
            rx == capped(received_sum(networks@.take(i as int))),
            tx == capped(sent_sum(networks@.take(i as int))),
        decreases networks.len() - i,
    {
        proof {
            assert(networks@.take(i + 1).drop_last() =~= networks@.take(i as int));
        }
        rx = rx.saturating_add(networks[i].rx_bytes_delta);
        tx = tx.saturating_add(networks[i].tx_bytes_delta);
        i += 1;
    }
    proof {
        assert(networks@.take(networks.len() as int) =~= networks@);
    }
    (rx, tx)
}

/// The largest delta of any interface, but not less than `MIN_PEAK_RATE`.
fn peak_rate(networks: &Vec<NetworkInfo>) -> (r: u64)
    ensures
        r == peak_of(largest_delta(networks@)),
        r >= MIN_PEAK_RATE,
{
    let mut peak: u64 = 0;
    let mut i: usize = 0;
    while i < networks.len()
        invariant
            i <= networks.len(),
            peak == largest_delta(networks@.take(i as int)),
        decreases networks.len() - i,
    {
        proof {
            assert(networks@.take(i + 1).drop_last() =~= networks@.take(i as int));
        }
        let own = if networks[i].rx_bytes_delta >= networks[i].tx_bytes_delta {
            networks[i].rx_bytes_delta
        } else {
            networks[i].tx_bytes_delta
        };
        if own > peak {
            peak = own;
        }
        i += 1;
    }
    proof {
        assert(networks@.take(networks.len() as int) =~= networks@);
    }
    if peak < MIN_PEAK_RATE {
        MIN_PEAK_RATE
    } else {
        peak
    }
}

/// Cells of a bar of `width` cells that `rate` fills when `peak` fills it.
fn cells_of(rate: u64, peak: u64, width: u64) -> (r: usize)
    requires
        peak > 0,
        width <= 15,
    ensures
        r == bar_cells(rate as nat, peak as nat, width as nat),
        r <= width,
{
    proof {
        assert(rate as nat * width as nat <= 0xffff_ffff_ffff_ffff * 15) by (nonlinear_arith)
            requires
                rate <= 0xffff_ffff_ffff_ffff,
                width <= 15,
        ;
    }
    let scaled: u128 = (rate as u128 * width as u128) / peak as u128;
    if scaled > width as u128 {
        width as usize
    } else {
        scaled as usize
    }
}

fn row_cells_of(rate: u64, peak: u64) -> (r: usize)
    requires
        peak > 0,
    ensures
        r == row_cells(rate as nat, peak as nat),
        r <= ROW_BAR_WIDTH,
{
    if rate == 0 {
        0
    } else {
        let cells = cells_of(rate, peak, ROW_BAR_WIDTH);
        if cells < 1 {
            1
        } else {
            cells
        }
    }
}

fn draw_title(
    canvas: &mut Canvas,
    area: Rect,
    count: usize,
    rx: u64,
    tx: u64,
    colors: &ColorScheme,
)
    ensures
        final(canvas)@ == old(canvas)@ + title_drawn(area, count as nat, rx, tx, *colors),
{
    canvas.move_to(area.x, area.y);
    canvas.foreground(colors.table_header);
    canvas.background(colors.background);
    let dots: &str = if rx > 0 || tx > 0 {
        if rx > 1_000_000 || tx > 1_000_000 {
            "●●●"
        } else if rx > 100_000 || tx > 100_000 {
            "●●○"
        } else {
            "●○○"
        }
    } else {
        "○○○"
    };
    let dots_color = if rx > 0 || tx > 0 {
        if rx > 1_000_000 || tx > 1_000_000 {
            colors.error
        } else if rx > 100_000 || tx > 100_000 {
            colors.warning
        } else {
            colors.success
        }
    } else {
        colors.muted
    };
    canvas.foreground(dots_color);
    canvas.print_str(dots);
    canvas.foreground(colors.table_header);
    let mut title = String::from_str(" NETWORK (");
    push_decimal(&mut title, count as u64);
    title.append(" interfaces)");
    let title_len = char_count(title.as_str());
    let dots_len = char_count(dots);
    let width = area.width as usize;
    if title_len < width && dots_len < width - title_len {
        let mut blanks = String::new();
        push_spaces(&mut blanks, width - title_len - dots_len);
        canvas.print(title);
        canvas.print(blanks);
        proof {
            assert(blanks@ =~= spaces((width - title_len - dots_len) as nat));
        }
    } else {
        let keep = if width.saturating_sub(7) > title_len {
            title_len
        } else {
            width.saturating_sub(7)
        };
        let mut cut = String::from_str(title.as_str().substring_char(0, keep));
        cut.append("...");
        proof {
            reveal_strlit("...");
            assert("..."@ =~= ellipsis());
        }
        canvas.print(cut);
    }
    proof {
        assert(canvas@ =~= old(canvas)@ + title_drawn(area, count as nat, rx, tx, *colors));
    }
}

fn draw_rule(canvas: &mut Canvas, area: Rect, colors: &ColorScheme)
    ensures
        final(canvas)@ == old(canvas)@ + rule_drawn(area, *colors),
{
    canvas.move_to(area.x, area.y.saturating_add(1));
    canvas.foreground(colors.muted);
    let width = if area.width < MAX_RULE_WIDTH {
        area.width
    } else {
        MAX_RULE_WIDTH
    };
    canvas.print(repeat("─", width as usize));
    proof {
        assert(canvas@ =~= old(canvas)@ + rule_drawn(area, *colors));
    }
}

/// A bar of the totals line.
fn total_bar_of(rate: u64, peak: u64) -> (r: String)
    requires
        peak > 0,
    ensures
        r@ == total_bar(rate, peak as nat),
{
    let cells = cells_of(rate, peak, TOTAL_BAR_WIDTH);
    let mut bar = repeat("▓", cells);
    bar.append(repeat("░", TOTAL_BAR_WIDTH as usize - cells).as_str());
    bar
}

/// A rate as the totals line shows it.
fn per_second_of(rate: u64) -> (r: String)
    ensures
        r@ == per_second(rate),
{
    let mut text = String::from_str(" ");
    text.append(format_rate(rate).as_str());
    text.append("/s");
    text
}

fn draw_totals(canvas: &mut Canvas, area: Rect, rx: u64, tx: u64, colors: &ColorScheme)
    ensures
        final(canvas)@ == old(canvas)@ + totals_drawn(area, rx, tx, *colors),
{
    canvas.move_to(area.x, area.y.saturating_add(2));
    canvas.foreground(colors.accent);
    let larger = if rx >= tx {
        rx
    } else {
        tx
    };
    let peak = if larger < MIN_PEAK_RATE {
        MIN_PEAK_RATE
    } else {
        larger
    };
    canvas.foreground(colors.success);
    canvas.print_str("⬇ ");
    canvas.print(total_bar_of(rx, peak));
    let down = per_second_of(rx);
    let down_len: u128 = 2 + TOTAL_BAR_WIDTH as u128 + char_count(down.as_str()) as u128;
    canvas.print(down);
    let ghost first = canvas@;
    draw_upload(canvas, area, rx, tx, peak, down_len, colors);
    proof {
        let head = seq![
            Draw::MoveTo(area.x, sat_add(area.y as int, 2) as u16),
            Draw::Foreground(colors.accent),
            Draw::Foreground(colors.success),
            Draw::Print("⬇ "@),
            Draw::Print(total_bar(rx, peak as nat)),
            Draw::Print(per_second(rx)),
        ];
        assert(first =~= old(canvas)@ + head);
        let tail = upload_drawn(area, rx, tx, peak as nat, *colors);
        assert((old(canvas)@ + head) + tail =~= old(canvas)@ + (head + tail));
    }
}

fn draw_upload(
    canvas: &mut Canvas,
    area: Rect,
    rx: u64,
    tx: u64,
    peak: u64,
    down_len: u128,
    colors: &ColorScheme,
)
    requires
        peak > 0,
        down_len == 2 + TOTAL_BAR_WIDTH + per_second(rx).len(),
        down_len <= 0xffff_ffff_ffff_ffff_ffff,
    ensures
        final(canvas)@ == old(canvas)@ + upload_drawn(area, rx, tx, peak as nat, *colors),
{
    let width = area.width as u128;
    if width > down_len + 25 {
        canvas.print_str("   ");
        canvas.foreground(colors.warning);
        canvas.print_str("⬆ ");
        canvas.print(total_bar_of(tx, peak));
        let up = per_second_of(tx);
        let both_len: u128 = down_len + 25 + char_count(up.as_str()) as u128;
        canvas.print(up);
        if width > both_len {
            let mut blanks = String::new();
            push_spaces(&mut blanks, (width - both_len) as usize);
            proof {
                assert(blanks@ =~= spaces((width - both_len) as nat));
            }
            canvas.print(blanks);
        }
    } else if width > down_len {
        let mut blanks = String::new();
        push_spaces(&mut blanks, (width - down_len) as usize);
        proof {
            assert(blanks@ =~= spaces((width - down_len) as nat));
        }
        canvas.print(blanks);
    }
    proof {
        assert(canvas@ =~= old(canvas)@ + upload_drawn(area, rx, tx, peak as nat, *colors));
    }
}

fn draw_bars(canvas: &mut Canvas, net: &NetworkInfo, peak: u64, colors: &ColorScheme) -> (used: u128)
    requires
        peak > 0,
    ensures
        final(canvas)@ == old(canvas)@ + bars_drawn(*net, peak as nat, *colors),
        used == row_used(*net),
{
    let bar = ROW_BAR_WIDTH as usize;
    if net.rx_bytes_delta > 0 || net.tx_bytes_delta > 0 {
        let down = row_cells_of(net.rx_bytes_delta, peak);
        let up = row_cells_of(net.tx_bytes_delta, peak);
        canvas.foreground(colors.success);
        canvas.print_str(" ⬇");
        canvas.print(repeat("█", down));
        canvas.foreground(colors.muted);
        canvas.print(repeat("▁", bar - down));
        canvas.foreground(colors.warning);
        canvas.print_str(" ⬆");
        canvas.print(repeat("█", up));
        canvas.foreground(colors.muted);
        canvas.print(repeat("▁", bar - up));
        canvas.foreground(colors.foreground);
        let mut rates = String::from_str(" ");
        rates.append(format_rate(net.rx_bytes_delta).as_str());
        rates.append("/");
        rates.append(format_rate(net.tx_bytes_delta).as_str());
        let len = char_count(rates.as_str());
        canvas.print(rates);
        proof {
            assert(canvas@ =~= old(canvas)@ + bars_drawn(*net, peak as nat, *colors));
        }
        29 + len as u128
    } else {
        canvas.foreground(colors.muted);
        canvas.print_str(" ⬇");
        canvas.print(repeat("▁", bar));
        canvas.print_str(" ⬆");
        canvas.print(repeat("▁", bar));
        canvas.print_str(" [idle]");
        proof {
            assert(canvas@ =~= old(canvas)@ + bars_drawn(*net, peak as nat, *colors));
        }
        36
    }
}

fn icon_of(net: &NetworkInfo) -> (r: &'static str)
    ensures
        r@ == status_icon(*net),
{
    if net.rx_bytes_delta > 0 || net.tx_bytes_delta > 0 {
        if net.rx_bytes_delta > 10_000_000 || net.tx_bytes_delta > 10_000_000 {
            "◉"
        } else if net.rx_bytes_delta > 1_000_000 || net.tx_bytes_delta > 1_000_000 {
            "◎"
        } else if net.rx_bytes_delta > 100_000 || net.tx_bytes_delta > 100_000 {
            "◐"
        } else {
            "◯"
        }
    } else {
        "○"
    }
}

fn icon_color_of(net: &NetworkInfo, colors: &ColorScheme) -> (r: Color)
    ensures
        r == status_color(*net, *colors),
{
    if net.rx_bytes_delta > 0 || net.tx_bytes_delta > 0 {
        if net.rx_bytes_delta > 10_000_000 || net.tx_bytes_delta > 10_000_000 {
            colors.error
        } else if net.rx_bytes_delta > 1_000_000 || net.tx_bytes_delta > 1_000_000 {
            colors.warning
        } else if net.rx_bytes_delta > 100_000 || net.tx_bytes_delta > 100_000 {
            colors.accent
        } else {
            colors.success
        }
    } else {
        colors.muted
    }
}

fn name_color_of(name: &str, colors: &ColorScheme) -> (r: Color)
    ensures
        r == name_color(name@, *colors),
{
    if starts_with(name, "en") || starts_with(name, "eth") {
        colors.success
    } else if starts_with(name, "wl") || contains(name, "wifi") {
        colors.accent
    } else {
        colors.muted
    }
}

fn draw_row(
    canvas: &mut Canvas,
    area: Rect,
    net: &NetworkInfo,
    index: u16,
    peak: u64,
    colors: &ColorScheme,
)
    requires
        peak > 0,
    ensures
        final(canvas)@ == old(canvas)@ + row_drawn(
            area,
            *net,
            index as nat,
            peak as nat,
            *colors,
        ),
{
    canvas.move_to(area.x, area.y.saturating_add(3).saturating_add(index));
    canvas.foreground(icon_color_of(net, colors));
    canvas.print_str(icon_of(net));
    canvas.foreground(name_color_of(net.interface_name.as_str(), colors));
    canvas.print(pad_right(net.interface_name.as_str(), 8));
    let used = draw_bars(canvas, net, peak, colors);
    let width = area.width as u128;
    if width > used {
        let mut blanks = String::new();
        push_spaces(&mut blanks, (width - used) as usize);
        proof {
            assert(blanks@ =~= spaces((width - used) as nat));
        }
        canvas.print(blanks);
    }
    proof {
        assert(canvas@ =~= old(canvas)@ + row_drawn(
            area,
            *net,
            index as nat,
            peak as nat,
            *colors,
        ));
    }
}

/// The positions `0` to `count - 1`, in order.
pub open spec fn positions(count: nat) -> Seq<usize> {
    Seq::new(count, |i: int| i as usize)
}

fn draw_rows(canvas: &mut Canvas, area: Rect, networks: &Vec<NetworkInfo>, colors: &ColorScheme)
    requires
        area.height > 3,
    ensures
        final(canvas)@ == old(canvas)@ + rows_drawn(
            area,
            row_order(networks@),
            rows_shown(area, networks@.len()),
            peak_of(largest_delta(networks@)),
            *colors,
        ),
{
    let peak = peak_rate(networks);
    let mut sorted: Vec<usize> = Vec::new();
    let mut k: usize = 0;
    while k < networks.len()
        invariant
            k <= networks.len(),
            sorted@ == positions(k as nat),
        decreases networks.len() - k,
    {
        sorted.push(k);
        k += 1;
        proof {
            assert(sorted@ =~= positions(k as nat));
        }
    }
    let rule = ByActivity { list: networks };
    let ghost unsorted = sorted@;
    sort_by_rule(&mut sorted, &rule);
    let ghost order = row_order(networks@);
    proof {
        let by_value = |net: NetworkInfo| activity_rank(net);
        let by_position = ranks::<usize, ByActivity>(rule);
        let at = |i: usize| networks@[i as int];
        assert forall|i: usize| #[trigger] by_position(i) == by_value(at(i)) by {}
        lemma_sorted_mapped(unsorted, at, by_position, by_value, false);
        assert(unsorted.map_values(at) =~= networks@);
        lemma_sorted_len(networks@, by_value, false);
        assert(sorted@.map_values(at) == order);
    }
    let available: usize = (area.height - 3) as usize;
    let shown: usize = if networks.len() < available {
        networks.len()
    } else {
        available
    };
    let mut i: usize = 0;
    while i < shown
        invariant
            i <= shown <= sorted.len(),
            shown <= u16::MAX,
            peak > 0,
            order.len() == sorted.len(),
            forall|m: int| 0 <= m < sorted.len() ==> sorted[m] < networks.len(),
            forall|m: int| 0 <= m < sorted.len() ==> networks[sorted[m] as int] == order[m],
            canvas@ == old(canvas)@ + rows_drawn(area, order, i as nat, peak as nat, *colors),
        decreases shown - i,
    {
        draw_row(canvas, area, &networks[sorted[i]], i as u16, peak, colors);
        i += 1;
        proof {
            assert(canvas@ =~= old(canvas)@ + rows_drawn(
                area,
                order,
                i as nat,
                peak as nat,
                *colors,
            ));
        }
    }
}

} // verus!
