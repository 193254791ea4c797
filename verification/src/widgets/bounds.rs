//! Where the widgets put the cursor: never outside the region they are
//! given.

use crate::canvas::Draw;
use crate::colors::ColorScheme;
use crate::layout;
use crate::layout::Rect;
use crate::model;
use crate::model::{MemoryInfo, NetworkInfo, SystemInfo, TemperatureInfo};
use crate::numbers::Fixed;
use crate::text;
use crate::widgets::footer::Footer;
use crate::widgets::gauges;
use crate::widgets::gauges::{
    gauge_bar_drawn, gauge_label_drawn, gauge_title_drawn, glyphs_drawn, Gauge, MemoryGauges,
};
use crate::widgets::help;
use crate::widgets::network;
use crate::widgets::network::{
    bars_drawn, row_drawn, rows_drawn, rows_shown, rule_drawn, title_drawn, totals_drawn,
    upload_drawn, NetworkGauges,
};
use crate::widgets::process_table;
use crate::widgets::temperature;
use crate::widgets::temperature::{
    cells_drawn, gauge_drawn, head_drawn, hottest, note_drawn, reading_drawn, sensors_drawn,
    sensors_shown, TemperatureGauge,
};
use crate::widgets::top_bar::TopBar;
use vstd::prelude::*;

verus! {

/// Whether a region lies on the screen plane: its far edges can be counted
/// in sixteen bits.
pub open spec fn on_plane(area: Rect) -> bool {
    area.x + area.width <= u16::MAX && area.y + area.height <= u16::MAX
}

/// Whether an instruction leaves the cursor in `area`: a move goes to a row
/// of the region and to a column of the region or its right edge.
pub open spec fn stays_in(op: Draw, area: Rect) -> bool {
    match op {
        Draw::MoveTo(x, y) => area.x <= x <= area.x + area.width && area.y <= y < area.y
            + area.height,
        _ => true,
    }
}

/// Whether every cursor move of `ops` stays in `area`.
pub open spec fn moves_within(ops: Seq<Draw>, area: Rect) -> bool {
    forall|i: int| 0 <= i < ops.len() ==> stays_in(#[trigger] ops[i], area)
}

/// Two lists of instructions stay in a region where each does.
pub proof fn lemma_joined_within(a: Seq<Draw>, b: Seq<Draw>, area: Rect)
    requires
        moves_within(a, area),
        moves_within(b, area),
    ensures
        moves_within(a + b, area),
{
    assert forall|i: int| 0 <= i < (a + b).len() implies stays_in(#[trigger] (a + b)[i], area) by {
        if i < a.len() {
            assert((a + b)[i] == a[i]);
        } else {
            assert((a + b)[i] == b[i - a.len()]);
        }
    }
}

/// The footer moves the cursor inside its region only.
pub proof fn lemma_footer_within(area: Rect, colors: ColorScheme)
    requires
        on_plane(area),
    ensures
        moves_within(Footer::drawn(area, colors), area),
{
}

/// The top bar moves the cursor inside its region only.
pub proof fn lemma_top_bar_within(area: Rect, system: SystemInfo, now: u64, colors: ColorScheme)
    requires
        on_plane(area),
    ensures
        moves_within(TopBar::drawn(area, system, now, colors), area),
{
}

proof fn lemma_glyphs_within(glyph: Seq<char>, count: nat, area: Rect)
    ensures
        moves_within(glyphs_drawn(glyph, count), area),
{
}

/// A gauge moves the cursor inside its region only.
pub proof fn lemma_gauge_within(
    area: Rect,
    title: Seq<char>,
    percentage: Fixed,
    label: Seq<char>,
    colors: ColorScheme,
)
    requires
        on_plane(area),
    ensures
        moves_within(Gauge::drawn(area, title, percentage, label, colors), area),
{
    if !(area.height < 2 || area.width < 3) {
        let cells = (area.width - 2) as nat;
        let filled = gauges::filled_cells(percentage, cells);
        let a = gauge_title_drawn(area, title, colors);
        let c = gauge_label_drawn(area, percentage, label, colors);
        let open = seq![
            Draw::MoveTo(area.x, layout::sat_add(area.y as int, 1) as u16),
            Draw::Foreground(colors.foreground),
            Draw::Print("["@),
            Draw::Background(colors.gauge_fill),
            Draw::Foreground(colors.background),
        ];
        let switch = seq![Draw::Background(colors.gauge_bg), Draw::Foreground(colors.muted)];
        let close = seq![
            Draw::Background(colors.background),
            Draw::Foreground(colors.foreground),
            Draw::Print("]"@),
        ];
        let full = glyphs_drawn("█"@, filled);
        let rest = glyphs_drawn("░"@, (cells - filled) as nat);
        lemma_glyphs_within("█"@, filled, area);
        lemma_glyphs_within("░"@, (cells - filled) as nat, area);
        assert(moves_within(open, area));
        assert(moves_within(switch, area));
        assert(moves_within(close, area));
        lemma_joined_within(rest, close, area);
        lemma_joined_within(switch, rest + close, area);
        lemma_joined_within(full, switch + (rest + close), area);
        lemma_joined_within(open, full + (switch + (rest + close)), area);
        let b = gauge_bar_drawn(area, cells, filled, colors);
        assert(moves_within(a, area));
        assert(moves_within(c, area));
        lemma_joined_within(b, c, area);
        lemma_joined_within(a, b + c, area);
    }
}

/// The memory gauges move the cursor inside their region only.
pub proof fn lemma_memory_gauges_within(area: Rect, memory: MemoryInfo, colors: ColorScheme)
    requires
        on_plane(area),
    ensures
        moves_within(MemoryGauges::drawn(area, memory, colors), area),
{
    if area.height >= 2 {
        let main = Gauge::drawn(
            area,
            "Memory"@,
            gauges::share_of(memory.used, memory.total),
            gauges::memory_label(memory.used, memory.total),
            colors,
        );
        lemma_gauge_within(
            area,
            "Memory"@,
            gauges::share_of(memory.used, memory.total),
            gauges::memory_label(memory.used, memory.total),
            colors,
        );
        let none = Seq::<Draw>::empty();
        assert(moves_within(none, area));
        lemma_joined_within(main, none, area);
    }
}

proof fn lemma_network_rows_within(
    area: Rect,
    sorted: Seq<NetworkInfo>,
    count: nat,
    peak: nat,
    colors: ColorScheme,
)
    requires
        on_plane(area),
        area.height > 3,
        count <= area.height - 3,
    ensures
        moves_within(rows_drawn(area, sorted, count, peak, colors), area),
    decreases count,
{
    if count > 0 {
        let i = (count - 1) as nat;
        lemma_network_rows_within(area, sorted, i, peak, colors);
        let net = sorted[count - 1];
        let head = seq![
            Draw::MoveTo(
                area.x,
                layout::sat_add(layout::sat_add(area.y as int, 3), i as int) as u16,
            ),
            Draw::Foreground(network::status_color(net, colors)),
            Draw::Print(network::status_icon(net)),
            Draw::Foreground(network::name_color(net.interface_name@, colors)),
            Draw::Print(text::padded(net.interface_name@, 8)),
        ];
        assert(moves_within(head, area));
        let bars = bars_drawn(net, peak, colors);
        assert(moves_within(bars, area));
        let tail = if area.width > network::row_used(net) {
            seq![
                Draw::Print(
                    text::spaces(
                        (area.width - network::row_used(net)) as nat,
                    ),
                ),
            ]
        } else {
            Seq::empty()
        };
        assert(moves_within(tail, area));
        lemma_joined_within(head, bars, area);
        lemma_joined_within(head + bars, tail, area);
        lemma_joined_within(
            rows_drawn(area, sorted, i, peak, colors),
            row_drawn(area, net, i, peak, colors),
            area,
        );
    }
}

/// The network panel moves the cursor inside its region only.
pub proof fn lemma_network_within(area: Rect, networks: Seq<NetworkInfo>, colors: ColorScheme)
    requires
        on_plane(area),
    ensures
        moves_within(NetworkGauges::drawn(area, networks, colors), area),
{
    if area.height >= 2 {
        let rx = network::capped(network::received_sum(networks));
        let tx = network::capped(network::sent_sum(networks));
        let title = title_drawn(area, networks.len(), rx, tx, colors);
        let rule = rule_drawn(area, colors);
        assert(moves_within(title, area)) by {
            let text = network::title_text(networks.len());
            let full = network::activity_dots(rx, tx).len() + text.len();
            let head = seq![
                Draw::MoveTo(area.x, area.y),
                Draw::Foreground(colors.table_header),
                Draw::Background(colors.background),
                Draw::Foreground(network::activity_color(rx, tx, colors)),
                Draw::Print(network::activity_dots(rx, tx)),
                Draw::Foreground(colors.table_header),
            ];
            let tail = if full < area.width {
                seq![
                    Draw::Print(text),
                    Draw::Print(text::spaces((area.width - full) as nat)),
                ]
            } else {
                seq![
                    Draw::Print(
                        text.take(
                            network::cut_length(area.width as nat, text.len()),
                        ) + text::ellipsis(),
                    ),
                ]
            };
            assert(moves_within(head, area));
            assert(moves_within(tail, area));
            lemma_joined_within(head, tail, area);
        }
        assert(moves_within(rule, area));
        lemma_joined_within(title, rule, area);
        let rest = if area.height >= 3 {
            let peak = network::peak_of(
                if rx >= tx {
                    rx as nat
                } else {
                    tx as nat
                },
            );
            let totals = totals_drawn(area, rx, tx, colors);
            assert(moves_within(totals, area)) by {
                let head = seq![
                    Draw::MoveTo(area.x, layout::sat_add(area.y as int, 2) as u16),
                    Draw::Foreground(colors.accent),
                    Draw::Foreground(colors.success),
                    Draw::Print("⬇ "@),
                    Draw::Print(network::total_bar(rx, peak)),
                    Draw::Print(network::per_second(rx)),
                ];
                let tail = upload_drawn(area, rx, tx, peak, colors);
                assert(moves_within(head, area));
                assert(moves_within(tail, area));
                lemma_joined_within(head, tail, area);
            }
            let rows = if area.height > 3 && networks.len() > 0 {
                lemma_network_rows_within(
                    area,
                    network::row_order(networks),
                    rows_shown(area, networks.len()),
                    network::peak_of(
                        network::largest_delta(networks),
                    ),
                    colors,
                );
                rows_drawn(
                    area,
                    network::row_order(networks),
                    rows_shown(area, networks.len()),
                    network::peak_of(
                        network::largest_delta(networks),
                    ),
                    colors,
                )
            } else {
                Seq::empty()
            };
            lemma_joined_within(totals, rows, area);
            totals + rows
        } else {
            Seq::empty()
        };
        lemma_joined_within(title + rule, rest, area);
    }
}

proof fn lemma_cells_within(count: nat, cells: nat, filled: nat, colors: ColorScheme, area: Rect)
    ensures
        moves_within(cells_drawn(count, cells, filled, colors), area),
    decreases count,
{
    if count > 0 {
        let i = (count - 1) as nat;
        lemma_cells_within(i, cells, filled, colors, area);
        let cell = if i < filled {
            seq![
                Draw::Foreground(temperature::zone_color(i, cells, colors)),
                Draw::Print("█"@),
            ]
        } else {
            seq![
                Draw::Foreground(temperature::zone_color(i, cells, colors)),
                Draw::Foreground(colors.muted),
                Draw::Print("░"@),
            ]
        };
        assert(moves_within(cell, area));
        lemma_joined_within(cells_drawn(i, cells, filled, colors), cell, area);
    }
}

proof fn lemma_sensors_within(
    area: Rect,
    temperatures: Seq<TemperatureInfo>,
    count: nat,
    colors: ColorScheme,
)
    requires
        on_plane(area),
        area.height >= 6,
        count <= area.height - 5,
    ensures
        moves_within(sensors_drawn(area, temperatures, count, colors), area),
    decreases count,
{
    if count > 0 {
        let i = (count - 1) as nat;
        lemma_sensors_within(area, temperatures, i, colors);
        let line = seq![
            Draw::MoveTo(
                area.x,
                layout::sat_add(layout::sat_add(area.y as int, 4), i as int) as u16,
            ),
            Draw::Foreground(
                temperature::sensor_color(
                    temperatures[i as int].temperature,
                    colors,
                ),
            ),
            Draw::Print(
                text::fitted(
                    temperature::sensor_text(temperatures[i as int]),
                    area.width as nat,
                ),
            ),
        ];
        assert(moves_within(line, area));
        lemma_joined_within(sensors_drawn(area, temperatures, i, colors), line, area);
    }
}

/// The temperature panel moves the cursor inside its region only.
pub proof fn lemma_temperature_within(
    area: Rect,
    temperatures: Seq<TemperatureInfo>,
    colors: ColorScheme,
)
    requires
        on_plane(area),
    ensures
        moves_within(TemperatureGauge::drawn(area, temperatures, colors), area),
{
    if area.height >= 2 {
        let head = head_drawn(area, temperatures, colors);
        assert(moves_within(head, area));
        let body = match hottest(temperatures) {
            Some(i) if area.height >= 4 => {
                let info = temperatures[i];
                let cells = temperature::gauge_width(area.width);
                let filled = (cells * temperature::heat_percent(
                    info.temperature,
                    temperature::limit_of(info),
                )) / 100;
                let open = seq![
                    Draw::MoveTo(area.x, layout::sat_add(area.y as int, 2) as u16),
                    Draw::Foreground(colors.foreground),
                    Draw::Print("┌"@),
                ];
                let close = seq![Draw::Foreground(colors.foreground), Draw::Print("┐"@)];
                assert(moves_within(open, area));
                assert(moves_within(close, area));
                lemma_cells_within(cells, cells, filled, colors, area);
                lemma_joined_within(open, cells_drawn(cells, cells, filled, colors), area);
                lemma_joined_within(open + cells_drawn(cells, cells, filled, colors), close, area);
                let gauge = gauge_drawn(area, info, colors);
                let reading = if area.height >= 5 {
                    reading_drawn(area, info, colors)
                } else {
                    Seq::empty()
                };
                assert(moves_within(reading, area));
                let sensors = if area.height >= 6 && temperatures.len() > 1 {
                    lemma_sensors_within(
                        area,
                        temperatures,
                        sensors_shown(area, temperatures.len()),
                        colors,
                    );
                    sensors_drawn(
                        area,
                        temperatures,
                        sensors_shown(area, temperatures.len()),
                        colors,
                    )
                } else {
                    Seq::empty()
                };
                lemma_joined_within(gauge, reading, area);
                lemma_joined_within(gauge + reading, sensors, area);
                gauge + reading + sensors
            },
            _ => {
                let note = if area.height >= 3 {
                    note_drawn(area, colors)
                } else {
                    Seq::empty()
                };
                assert(moves_within(note, area));
                note
            },
        };
        lemma_joined_within(head, body, area);
    }
}

/// The processor gauges move the cursor inside their region only.
pub proof fn lemma_cpu_gauges_within(
    area: Rect,
    cores: Seq<model::CpuCore>,
    colors: ColorScheme,
)
    requires
        on_plane(area),
    ensures
        moves_within(gauges::CpuGauges::drawn(area, cores, colors), area),
{
    if !(cores.len() == 0 || area.height < 2) {
        let label = text::decimal(cores.len()) + " cores"@;
        let usage = gauges::overall_usage(cores);
        lemma_gauge_within(area, "CPU"@, usage, label, colors);
        let gauge = Gauge::drawn(area, "CPU"@, usage, label, colors);
        let list = if area.height > 3 && cores.len() <= gauges::MAX_LISTED_CORES {
            let head = seq![
                Draw::MoveTo(area.x, layout::sat_add(area.y as int, 3) as u16),
                Draw::Foreground(colors.muted),
            ];
            assert(moves_within(head, area));
            lemma_cores_within(area, cores, colors, cores.len());
            lemma_joined_within(
                head,
                gauges::cores_drawn(area, cores, colors, cores.len()),
                area,
            );
            head + gauges::cores_drawn(area, cores, colors, cores.len())
        } else {
            Seq::empty()
        };
        lemma_joined_within(gauge, list, area);
    }
}

proof fn lemma_cores_within(
    area: Rect,
    cores: Seq<model::CpuCore>,
    colors: ColorScheme,
    count: nat,
)
    requires
        on_plane(area),
        area.height > 3,
    ensures
        moves_within(gauges::cores_drawn(area, cores, colors, count), area),
    decreases count,
{
    if count > 0 {
        let i = (count - 1) as nat;
        lemma_cores_within(area, cores, colors, i);
        let per_row = gauges::cores_per_row(area.width);
        let turn = if i > 0 && per_row > 0 && i % per_row == 0 && area.y + 3 + i / per_row
            < area.spec_bottom() {
            seq![Draw::MoveTo(area.x, (area.y + 3 + i / per_row) as u16)]
        } else {
            Seq::empty()
        };
        assert(moves_within(turn, area));
        let core = seq![
            Draw::Foreground(colors.cpu_color(cores[i as int].usage_percent)),
            Draw::Print(gauges::core_text(cores[i as int])),
            Draw::Foreground(colors.muted),
        ];
        assert(moves_within(core, area));
        lemma_joined_within(
            gauges::cores_drawn(area, cores, colors, i),
            turn,
            area,
        );
        lemma_joined_within(
            gauges::cores_drawn(area, cores, colors, i) + turn,
            core,
            area,
        );
    }
}

/// The help overlay moves the cursor inside the screen only, for a screen
/// that is anchored at the origin and has a cell.
pub proof fn lemma_help_within(area: Rect, colors: ColorScheme)
    requires
        area.x == 0,
        area.y == 0,
        area.width >= 1,
        area.height >= 1,
    ensures
        moves_within(help::HelpOverlay::drawn(area, colors), area),
{
    let popup = help::popup_rect(area);
    let content = popup.spec_inner(1);
    let blank = help::blank_drawn(
        popup,
        colors,
        help::box_rows(popup),
    );
    lemma_blank_within(area, popup, colors, help::box_rows(popup));
    let border = help::border_drawn(popup, colors);
    assert(moves_within(border, area)) by {
        let stroke = text::repeated(
            "─"@,
            layout::sat_sub(popup.width as int, 2) as nat,
        );
        let top = seq![
            Draw::Foreground(colors.border),
            Draw::Background(colors.background),
            Draw::MoveTo(popup.x, popup.y),
            Draw::Print("┌"@),
            Draw::Print(stroke),
            Draw::Print("┐"@),
        ];
        let bottom = seq![
            Draw::MoveTo(popup.x, layout::sat_sub(popup.spec_bottom(), 1) as u16),
            Draw::Print("└"@),
            Draw::Print(stroke),
            Draw::Print("┘"@),
        ];
        assert(moves_within(top, area));
        assert(moves_within(bottom, area));
        lemma_sides_within(area, popup, help::side_rows(popup));
        lemma_joined_within(
            top,
            help::sides_drawn(popup, help::side_rows(popup)),
            area,
        );
        lemma_joined_within(
            top + help::sides_drawn(popup, help::side_rows(popup)),
            bottom,
            area,
        );
    }
    let lines = help::lines_drawn(
        content,
        colors,
        help::lines_shown(content),
    );
    lemma_lines_within(area, content, colors, help::lines_shown(content));
    let hint = help::close_hint_drawn(popup, colors);
    assert(moves_within(hint, area));
    lemma_joined_within(blank, border, area);
    lemma_joined_within(blank + border, lines, area);
    lemma_joined_within(blank + border + lines, hint, area);
}

proof fn lemma_blank_within(area: Rect, popup: Rect, colors: ColorScheme, count: nat)
    requires
        area.x == 0,
        area.y == 0,
        popup == help::popup_rect(area),
        count <= help::box_rows(popup),
    ensures
        moves_within(help::blank_drawn(popup, colors, count), area),
    decreases count,
{
    if count > 0 {
        lemma_blank_within(area, popup, colors, (count - 1) as nat);
        let row = seq![
            Draw::MoveTo(popup.x, (popup.y + count - 1) as u16),
            Draw::Background(colors.background),
            Draw::Foreground(colors.foreground),
            Draw::Print(text::spaces(popup.width as nat)),
        ];
        assert(moves_within(row, area));
        lemma_joined_within(
            help::blank_drawn(popup, colors, (count - 1) as nat),
            row,
            area,
        );
    }
}

proof fn lemma_sides_within(area: Rect, popup: Rect, count: nat)
    requires
        area.x == 0,
        area.y == 0,
        popup == help::popup_rect(area),
        count <= help::side_rows(popup),
    ensures
        moves_within(help::sides_drawn(popup, count), area),
    decreases count,
{
    if count > 0 {
        lemma_sides_within(area, popup, (count - 1) as nat);
        let y = (layout::sat_add(popup.y as int, 1) + count - 1) as u16;
        let pair = seq![
            Draw::MoveTo(popup.x, y),
            Draw::Print("│"@),
            Draw::MoveTo(layout::sat_sub(popup.spec_right(), 1) as u16, y),
            Draw::Print("│"@),
        ];
        assert(moves_within(pair, area));
        lemma_joined_within(
            help::sides_drawn(popup, (count - 1) as nat),
            pair,
            area,
        );
    }
}

proof fn lemma_lines_within(area: Rect, content: Rect, colors: ColorScheme, count: nat)
    requires
        area.x == 0,
        area.y == 0,
        area.width >= 1,
        content == help::popup_rect(area).spec_inner(1),
        count <= help::lines_shown(content),
    ensures
        moves_within(help::lines_drawn(content, colors, count), area),
    decreases count,
{
    if count > 0 {
        let i = count - 1;
        lemma_lines_within(area, content, colors, i as nat);
        let line = seq![
            Draw::MoveTo(content.x, layout::sat_add(content.y as int, i) as u16),
            Draw::Foreground(help::line_color(i, colors)),
            Draw::Print(
                help::clipped(
                    help::help_line(i),
                    content.width as nat,
                ),
            ),
        ];
        assert(moves_within(line, area));
        lemma_joined_within(
            help::lines_drawn(content, colors, i as nat),
            line,
            area,
        );
    }
}

proof fn lemma_headings_within(area: Rect, names: Seq<Seq<char>>, count: nat)
    requires
        on_plane(area),
        area.height >= 2,
        layout::rounded_up_columns(names, area.width as nat) == 0,
        count <= names.len(),
    ensures
        moves_within(
            process_table::headings_drawn(
                names,
                layout::column_rects(area, names),
                count,
            ),
            area,
        ),
    decreases count,
{
    let rects = layout::column_rects(area, names);
    if count > 0 {
        let i = count - 1;
        lemma_headings_within(area, names, i as nat);
        let cell = if i < rects.len() {
            layout::lemma_columns_start_inside(area, names, i);
            seq![
                Draw::MoveTo(rects[i].x, rects[i].y),
                Draw::Print(text::padded(names[i], rects[i].width as nat)),
            ]
        } else {
            Seq::empty()
        };
        assert(moves_within(cell, area));
        lemma_joined_within(
            process_table::headings_drawn(names, rects, i as nat),
            cell,
            area,
        );
    }
}

proof fn lemma_table_cells_within(
    area: Rect,
    names: Seq<Seq<char>>,
    row: model::ProcessRow,
    y: u16,
    selected: bool,
    now: u64,
    colors: ColorScheme,
    count: nat,
)
    requires
        on_plane(area),
        area.y <= y < area.y + area.height,
        layout::rounded_up_columns(names, area.width as nat) == 0,
        count <= names.len(),
    ensures
        moves_within(
            process_table::cells_drawn(
                names,
                layout::column_rects(area, names),
                row,
                y,
                selected,
                now,
                colors,
                count,
            ),
            area,
        ),
    decreases count,
{
    let rects = layout::column_rects(area, names);
    if count > 0 {
        let i = count - 1;
        lemma_table_cells_within(area, names, row, y, selected, now, colors, i as nat);
        let cell = if i < rects.len() {
            layout::lemma_columns_start_inside(area, names, i);
            let tint = if selected {
                Seq::empty()
            } else {
                process_table::cell_tint(row, names[i], colors)
            };
            let text = seq![
                Draw::Print(
                    text::fitted(
                        process_table::cell_text(row, names[i], now),
                        rects[i].width as nat,
                    ),
                ),
            ];
            let head = seq![Draw::MoveTo(rects[i].x, y)];
            assert(moves_within(head, area));
            assert(moves_within(tint, area));
            assert(moves_within(text, area));
            lemma_joined_within(tint, text, area);
            lemma_joined_within(head, tint + text, area);
            process_table::cell_drawn(
                names[i],
                rects[i],
                row,
                y,
                selected,
                now,
                colors,
            )
        } else {
            Seq::empty()
        };
        lemma_joined_within(
            process_table::cells_drawn(
                names,
                rects,
                row,
                y,
                selected,
                now,
                colors,
                i as nat,
            ),
            cell,
            area,
        );
    }
}

proof fn lemma_table_rows_within(
    area: Rect,
    names: Seq<Seq<char>>,
    list: Seq<model::ProcessRow>,
    selected: nat,
    start: nat,
    now: u64,
    colors: ColorScheme,
    count: nat,
)
    requires
        on_plane(area),
        area.height >= 2,
        layout::rounded_up_columns(names, area.width as nat) == 0,
        count <= area.height - 1,
    ensures
        moves_within(
            process_table::rows_drawn(
                area,
                names,
                layout::column_rects(area, names),
                list,
                selected,
                start,
                now,
                colors,
                count,
            ),
            area,
        ),
    decreases count,
{
    let rects = layout::column_rects(area, names);
    if count > 0 {
        let i = (count - 1) as nat;
        lemma_table_rows_within(area, names, list, selected, start, now, colors, i);
        let row = list[(start + i) as int];
        let chosen = start + i == selected;
        let y = layout::sat_add(layout::sat_add(area.y as int, 1), i as int) as u16;
        let opening = process_table::row_colors(chosen, i % 2 == 1, colors);
        assert(moves_within(opening, area));
        lemma_table_cells_within(area, names, row, y, chosen, now, colors, names.len());
        lemma_joined_within(
            opening,
            process_table::cells_drawn(
                names,
                rects,
                row,
                y,
                chosen,
                now,
                colors,
                names.len(),
            ),
            area,
        );
        lemma_joined_within(
            process_table::rows_drawn(
                area,
                names,
                rects,
                list,
                selected,
                start,
                now,
                colors,
                i,
            ),
            process_table::row_drawn(
                area,
                names,
                rects,
                row,
                i,
                chosen,
                now,
                colors,
            ),
            area,
        );
    }
}

/// The process table moves the cursor inside its region only, where no
/// column had to be rounded up to one cell.
pub proof fn lemma_table_within(
    area: Rect,
    list: Seq<model::ProcessRow>,
    names: Seq<Seq<char>>,
    selected: nat,
    start: nat,
    now: u64,
    colors: ColorScheme,
)
    requires
        on_plane(area),
        layout::rounded_up_columns(names, area.width as nat) == 0,
    ensures
        moves_within(
            process_table::ProcessTable::drawn(
                area,
                list,
                names,
                selected,
                start,
                now,
                colors,
            ),
            area,
        ),
{
    if area.height >= 2 {
        let rects = layout::column_rects(area, names);
        let shown = process_table::visible_count(area, list.len(), start);
        let open = seq![
            Draw::MoveTo(area.x, area.y),
            Draw::Foreground(colors.table_header),
            Draw::Background(colors.background),
        ];
        let close = seq![
            Draw::Background(colors.background),
            Draw::Foreground(colors.foreground),
        ];
        assert(moves_within(open, area));
        assert(moves_within(close, area));
        lemma_headings_within(area, names, names.len());
        lemma_table_rows_within(area, names, list, selected, start, now, colors, shown);
        let headings = process_table::headings_drawn(names, rects, names.len());
        let rows = process_table::rows_drawn(
            area,
            names,
            rects,
            list,
            selected,
            start,
            now,
            colors,
            shown,
        );
        lemma_joined_within(open, headings, area);
        lemma_joined_within(open + headings, rows, area);
        lemma_joined_within(open + headings + rows, close, area);
    }
}

} // verus!
