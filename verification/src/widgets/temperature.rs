//! The temperature panel: the hottest sensor as a gauge, then single sensors.

use crate::canvas::{Canvas, Draw};
use crate::colors::{Color, ColorScheme};
use crate::layout::{sat_add, sat_sub, Rect};
use crate::model::TemperatureInfo;
use crate::numbers::{round_half_even, Fixed};
use crate::text::{char_count, decimal, fit, fitted, push_char, push_decimal, repeat, repeated};
use vstd::prelude::*;
use vstd::string::*;

verus! {

/// Widest gauge drawn.
pub const MAX_GAUGE_WIDTH: u16 = 30;

/// Most single sensors listed.
pub const MAX_SENSORS: usize = 4;

/// Characters of a sensor's label that are shown.
pub const LABEL_WIDTH: usize = 8;

/// Position of the hottest sensor; of several equally hot ones, the last.
pub open spec fn hottest(temperatures: Seq<TemperatureInfo>) -> Option<int>
    decreases temperatures.len(),
{
    if temperatures.len() == 0 {
        None
    } else {
        match hottest(temperatures.drop_last()) {
            None => Some(temperatures.len() - 1),
            Some(i) => if temperatures[i].temperature.thousandths
                > temperatures.last().temperature.thousandths {
                Some(i)
            } else {
                Some(temperatures.len() - 1)
            },
        }
    }
}

/// A Celsius reading in Fahrenheit, counted in five-thousandths of a degree.
pub open spec fn fahrenheit(celsius: Fixed) -> int {
    celsius.thousandths * 9 + 160_000
}

/// A Celsius reading as whole degrees Fahrenheit, rounded half-even.
pub open spec fn fahrenheit_text(celsius: Fixed) -> Seq<char> {
    let f = fahrenheit(celsius);
    if f < 0 {
        seq!['-'] + decimal(round_half_even((-f) as nat, 5000))
    } else {
        decimal(round_half_even(f as nat, 5000))
    }
}

/// How far `temperature` is towards `limit`, in whole percent between 0 and
/// 100. A limit of zero counts as reached by every reading that is not
/// negative.
pub open spec fn heat_percent(temperature: Fixed, limit: Fixed) -> nat {
    let t = temperature.thousandths as int;
    let l = limit.thousandths as int;
    if l == 0 {
        if t >= 0 {
            100
        } else {
            0
        }
    } else if t == 0 || (t < 0) != (l < 0) {
        0
    } else {
        let ratio = (if t < 0 {
            -t
        } else {
            t
        } * 100) / if l < 0 {
            -l
        } else {
            l
        };
        if ratio > 100 {
            100
        } else {
            ratio as nat
        }
    }
}

/// The reading against which a sensor is gauged: its critical temperature,
/// else its maximum, else a hundred degrees.
pub open spec fn limit_of(info: TemperatureInfo) -> Fixed {
    match info.critical {
        Some(c) => c,
        None => match info.max {
            Some(m) => m,
            None => Fixed { thousandths: 100_000 },
        },
    }
}

/// The mark in front of the title, by the hottest reading.
pub open spec fn heat_icon(temperature: Fixed) -> Seq<char> {
    if temperature.thousandths >= 80_000 {
        "🔥"@
    } else if temperature.thousandths >= 65_000 {
        "🌡️"@
    } else if temperature.thousandths >= 45_000 {
        "♨️"@
    } else {
        "❄️"@
    }
}

/// The colour of the title, by the hottest reading.
pub open spec fn heat_color(temperature: Fixed, colors: ColorScheme) -> Color {
    if temperature.thousandths >= 80_000 {
        colors.error
    } else if temperature.thousandths >= 65_000 {
        colors.warning
    } else if temperature.thousandths >= 45_000 {
        colors.accent
    } else {
        colors.success
    }
}

/// The title of the panel.
pub open spec fn title_text(temperatures: Seq<TemperatureInfo>) -> Seq<char> {
    match hottest(temperatures) {
        Some(i) => heat_icon(temperatures[i].temperature) + " TEMPERATURE ("@ + fahrenheit_text(
            temperatures[i].temperature,
        ) + "°F)"@,
        None => "🌡️ TEMPERATURE (No sensors)"@,
    }
}

/// The colour of the title.
pub open spec fn title_color(temperatures: Seq<TemperatureInfo>, colors: ColorScheme) -> Color {
    match hottest(temperatures) {
        Some(i) => heat_color(temperatures[i].temperature, colors),
        None => colors.muted,
    }
}

/// The title line and the rule below it.
pub open spec fn head_drawn(area: Rect, temperatures: Seq<TemperatureInfo>, colors: ColorScheme)
    -> Seq<Draw> {
    seq![
        Draw::MoveTo(area.x, area.y),
        Draw::Background(colors.background),
        Draw::Foreground(title_color(temperatures, colors)),
        Draw::Print(fitted(title_text(temperatures), area.width as nat)),
        Draw::MoveTo(area.x, sat_add(area.y as int, 1) as u16),
        Draw::Foreground(colors.muted),
        Draw::Print(repeated("─"@, area.width as nat)),
    ]
}

/// Cells of the gauge in an area of the given width.
pub open spec fn gauge_width(width: u16) -> nat {
    if sat_sub(width as int, 2) < MAX_GAUGE_WIDTH {
        sat_sub(width as int, 2) as nat
    } else {
        MAX_GAUGE_WIDTH as nat
    }
}

/// The colour of the gauge at the cell `i` of `cells`: green, blue, yellow
/// and red zones from the left.
pub open spec fn zone_color(i: nat, cells: nat, colors: ColorScheme) -> Color {
    let position = (i * 100) / cells;
    if position >= 80 {
        colors.error
    } else if position >= 60 {
        colors.warning
    } else if position >= 40 {
        colors.accent
    } else {
        colors.success
    }
}

/// The first `count` cells of a gauge of `cells` cells of which `filled` are full.
pub open spec fn cells_drawn(count: nat, cells: nat, filled: nat, colors: ColorScheme) -> Seq<Draw>
    decreases count,
{
    if count == 0 {
        Seq::empty()
    } else {
        let i = (count - 1) as nat;
        cells_drawn(i, cells, filled, colors) + if i < filled {
            seq![Draw::Foreground(zone_color(i, cells, colors)), Draw::Print("█"@)]
        } else {
            seq![
                Draw::Foreground(zone_color(i, cells, colors)),
                Draw::Foreground(colors.muted),
                Draw::Print("░"@),
            ]
        }
    }
}

/// The gauge line of the sensor `info`.
pub open spec fn gauge_drawn(area: Rect, info: TemperatureInfo, colors: ColorScheme) -> Seq<Draw> {
    let cells = gauge_width(area.width);
    let filled = (cells * heat_percent(info.temperature, limit_of(info))) / 100;
    seq![
        Draw::MoveTo(area.x, sat_add(area.y as int, 2) as u16),
        Draw::Foreground(colors.foreground),
        Draw::Print("┌"@),
    ] + cells_drawn(cells, cells, filled, colors) + seq![
        Draw::Foreground(colors.foreground),
        Draw::Print("┐"@),
    ]
}

/// The reading below the gauge.
pub open spec fn reading_text(info: TemperatureInfo) -> Seq<char> {
    fahrenheit_text(info.temperature) + "°F ("@ + decimal(
        heat_percent(info.temperature, limit_of(info)),
    ) + "%)"@
}

/// Column at which a text of `len` characters starts when centred in `area`.
pub open spec fn centred(area: Rect, len: nat) -> u16 {
    sat_add(area.x as int, sat_sub(area.width as int, len as int) / 2) as u16
}

/// The line of the reading, centred below the gauge.
pub open spec fn reading_drawn(area: Rect, info: TemperatureInfo, colors: ColorScheme) -> Seq<
    Draw,
> {
    let row = sat_add(area.y as int, 3) as u16;
    seq![
        Draw::MoveTo(area.x, row),
        Draw::Foreground(colors.foreground),
        Draw::MoveTo(centred(area, reading_text(info).len()), row),
        Draw::Print(reading_text(info)),
    ]
}

/// The colour of a single sensor's line.
pub open spec fn sensor_color(temperature: Fixed, colors: ColorScheme) -> Color {
    if temperature.thousandths >= 80_000 {
        colors.error
    } else if temperature.thousandths >= 65_000 {
        colors.warning
    } else {
        colors.muted
    }
}

/// The first `LABEL_WIDTH` characters of a label.
pub open spec fn short_label(label: Seq<char>) -> Seq<char> {
    if label.len() > LABEL_WIDTH {
        label.take(LABEL_WIDTH as int)
    } else {
        label
    }
}

/// A single sensor's text.
pub open spec fn sensor_text(info: TemperatureInfo) -> Seq<char> {
    short_label(info.label@) + ": "@ + fahrenheit_text(info.temperature) + "°F"@
}

/// Number of single sensors listed in `area`.
pub open spec fn sensors_shown(area: Rect, count: nat) -> nat {
    let rows = sat_sub(area.height as int, 5) as nat;
    let fitting = if rows < count {
        rows
    } else {
        count
    };
    if fitting < MAX_SENSORS {
        fitting
    } else {
        MAX_SENSORS as nat
    }
}

/// The lines of the first `count` sensors.
pub open spec fn sensors_drawn(
    area: Rect,
    temperatures: Seq<TemperatureInfo>,
    count: nat,
    colors: ColorScheme,
) -> Seq<Draw>
    decreases count,
{
    if count == 0 {
        Seq::empty()
    } else {
        let i = (count - 1) as nat;
        sensors_drawn(area, temperatures, i, colors) + seq![
            Draw::MoveTo(area.x, sat_add(sat_add(area.y as int, 4), i as int) as u16),
            Draw::Foreground(sensor_color(temperatures[i as int].temperature, colors)),
            Draw::Print(fitted(sensor_text(temperatures[i as int]), area.width as nat)),
        ]
    }
}

/// The note shown where there is no gauge.
pub open spec fn no_sensors_text() -> Seq<char> {
    "No temperature sensors detected"@
}

/// The note that no sensor was found, centred on the third row.
pub open spec fn note_drawn(area: Rect, colors: ColorScheme) -> Seq<Draw> {
    let row = sat_add(area.y as int, 2) as u16;
    seq![
        Draw::MoveTo(area.x, row),
        Draw::Foreground(colors.muted),
        Draw::MoveTo(centred(area, no_sensors_text().len()), row),
        Draw::Print(no_sensors_text()),
    ]
}

/// Temperature panel widget.
pub struct TemperatureGauge;

impl TemperatureGauge {
    /// What the panel draws in `area`: nothing in less than two rows; else
    /// the title and the rule; from four rows on, the gauge of the hottest
    /// sensor, from five its reading, from six the single sensors where
    /// there are several; without a sensor, or on exactly three rows, a note.
    pub open spec fn drawn(
        area: Rect,
        temperatures: Seq<TemperatureInfo>,
        colors: ColorScheme,
    ) -> Seq<Draw> {
        if area.height < 2 {
            Seq::empty()
        } else {
            head_drawn(area, temperatures, colors) + match hottest(temperatures) {
                Some(i) if area.height >= 4 => gauge_drawn(area, temperatures[i], colors)
                    + if area.height >= 5 {
                    reading_drawn(area, temperatures[i], colors)
                } else {
                    Seq::empty()
                } + if area.height >= 6 && temperatures.len() > 1 {
                    sensors_drawn(
                        area,
                        temperatures,
                        sensors_shown(area, temperatures.len()),
                        colors,
                    )
                } else {
                    Seq::empty()
                },
                _ => if area.height >= 3 {
                    note_drawn(area, colors)
                } else {
                    Seq::empty()
                },
            }
        }
    }

    /// Draws the panel into `area`.
    pub fn render(
        &self,
        canvas: &mut Canvas,
        area: Rect,
        temperatures: &Vec<TemperatureInfo>,
        colors: &ColorScheme,
    )
        ensures
            final(canvas)@ == old(canvas)@ + Self::drawn(area, temperatures@, *colors),
    {
        if area.height < 2 {
            proof {
                assert(canvas@ =~= old(canvas)@ + Self::drawn(area, temperatures@, *colors));
            }
            return ;
        }
        let hot = hottest_of(temperatures);
        draw_head(canvas, area, temperatures, hot, colors);
        match hot {
            Some(i) if area.height >= 4 => {
                let info = &temperatures[i];
                draw_gauge(canvas, area, info, colors);
                if area.height >= 5 {
                    draw_reading(canvas, area, info, colors);
                }
                if area.height >= 6 && temperatures.len() > 1 {
                    draw_sensors(canvas, area, temperatures, colors);
                }
            },
            _ => {
                if area.height >= 3 {
                    draw_note(canvas, area, colors);
                }
            },
        }
        proof {
            assert(canvas@ =~= old(canvas)@ + Self::drawn(area, temperatures@, *colors));
        }
    }
}

/// Position of the hottest sensor; of several equally hot ones, the last.
pub fn hottest_of(temperatures: &Vec<TemperatureInfo>) -> (r: Option<usize>)
    ensures
        match r {
            Some(i) => hottest(temperatures@) == Some(i as int) && i < temperatures.len(),
            None => hottest(temperatures@).is_none(),
        },
{
    let mut best: Option<usize> = None;
    let mut i: usize = 0;
    while i < temperatures.len()
        invariant
            i <= temperatures.len(),
            match best {
                Some(b) => hottest(temperatures@.take(i as int)) == Some(b as int) && b < i,
                None => hottest(temperatures@.take(i as int)).is_none(),
            },
        decreases temperatures.len() - i,
    {
        proof {
            assert(temperatures@.take(i + 1).drop_last() =~= temperatures@.take(i as int));
        }
        best = match best {
            None => Some(i),
            Some(b) => if temperatures[b].temperature.thousandths
                > temperatures[i].temperature.thousandths {
                Some(b)
            } else {
                Some(i)
            },
        };
        i += 1;
    }
    proof {
        assert(temperatures@.take(temperatures.len() as int) =~= temperatures@);
    }
    best
}

/// Appends a Celsius reading as whole degrees Fahrenheit.
pub fn push_fahrenheit(s: &mut String, celsius: Fixed)
    ensures
        final(s)@ == old(s)@ + fahrenheit_text(celsius),
{
    let f: i128 = celsius.thousandths as i128 * 9 + 160_000;
    let magnitude: u128 = if f < 0 {
        (-f) as u128
    } else {
        f as u128
    };
    if f < 0 {
        push_char(s, '-');
    }
    let q: u128 = magnitude / 5000;
    let rem: u128 = magnitude % 5000;
    let rounded: u128 = if 2 * rem > 5000 || (2 * rem == 5000 && q % 2 == 1) {
        q + 1
    } else {
        q
    };
    push_decimal(s, rounded as u64);
    proof {
        assert(s@ =~= old(s)@ + fahrenheit_text(celsius));
    }
}

/// How far `temperature` is towards `limit`, in whole percent.
pub fn heat_percent_of(temperature: Fixed, limit: Fixed) -> (r: u16)
    ensures
        r == heat_percent(temperature, limit),
        r <= 100,
{
    let t = temperature.thousandths;
    let l = limit.thousandths;
    if l == 0 {
        if t >= 0 {
            100
        } else {
            0
        }
    } else if t == 0 || (t < 0) != (l < 0) {
        0
    } else {
        let ratio: u128 = (temperature.magnitude() as u128 * 100) / limit.magnitude() as u128;
        if ratio > 100 {
            100
        } else {
            ratio as u16
        }
    }
}

fn limit_for(info: &TemperatureInfo) -> (r: Fixed)
    ensures
        r == limit_of(*info),
{
    match info.critical {
        Some(c) => c,
        None => match info.max {
            Some(m) => m,
            None => Fixed { thousandths: 100_000 },
        },
    }
}

fn draw_head(
    canvas: &mut Canvas,
    area: Rect,
    temperatures: &Vec<TemperatureInfo>,
    hot: Option<usize>,
    colors: &ColorScheme,
)
    requires
        match hot {
            Some(i) => hottest(temperatures@) == Some(i as int) && i < temperatures.len(),
            None => hottest(temperatures@).is_none(),
        },
    ensures
        final(canvas)@ == old(canvas)@ + head_drawn(area, temperatures@, *colors),
{
    canvas.move_to(area.x, area.y);
    canvas.background(colors.background);
    let mut title = String::new();
    let color = match hot {
        Some(i) => {
            let temperature = temperatures[i].temperature;
            let icon: &str = if temperature.reaches(80) {
                "🔥"
            } else if temperature.reaches(65) {
                "🌡️"
            } else if temperature.reaches(45) {
                "♨️"
            } else {
                "❄️"
            };
            title.append(icon);
            title.append(" TEMPERATURE (");
            push_fahrenheit(&mut title, temperature);
            title.append("°F)");
            if temperature.reaches(80) {
                colors.error
            } else if temperature.reaches(65) {
                colors.warning
            } else if temperature.reaches(45) {
                colors.accent
            } else {
                colors.success
            }
        },
        None => {
            title.append("🌡️ TEMPERATURE (No sensors)");
            colors.muted
        },
    };
    proof {
        assert(title@ =~= title_text(temperatures@));
    }
    canvas.foreground(color);
    canvas.print(fit(title.as_str(), area.width as usize));
    canvas.move_to(area.x, area.y.saturating_add(1));
    canvas.foreground(colors.muted);
    canvas.print(repeat("─", area.width as usize));
    proof {
        assert(canvas@ =~= old(canvas)@ + head_drawn(area, temperatures@, *colors));
    }
}

fn draw_gauge(canvas: &mut Canvas, area: Rect, info: &TemperatureInfo, colors: &ColorScheme)
    ensures
        final(canvas)@ == old(canvas)@ + gauge_drawn(area, *info, *colors),
{
    canvas.move_to(area.x, area.y.saturating_add(2));
    let inner = area.width.saturating_sub(2);
    let cells: u16 = if inner < MAX_GAUGE_WIDTH {
        inner
    } else {
        MAX_GAUGE_WIDTH
    };
    let percentage = heat_percent_of(info.temperature, limit_for(info));
    proof {
        assert(cells * percentage <= 30 * 100) by (nonlinear_arith)
            requires
                cells <= 30,
                percentage <= 100,
        ;
    }
    let filled: u16 = (cells * percentage) / 100;
    canvas.foreground(colors.foreground);
    canvas.print_str("┌");
    let ghost start = canvas@;
    let mut i: u16 = 0;
    while i < cells
        invariant
            i <= cells <= MAX_GAUGE_WIDTH,
            canvas@ == start + cells_drawn(i as nat, cells as nat, filled as nat, *colors),
        decreases cells - i,
    {
        let position = (i * 100) / cells;
        let color = if position >= 80 {
            colors.error
        } else if position >= 60 {
            colors.warning
        } else if position >= 40 {
            colors.accent
        } else {
            colors.success
        };
        canvas.foreground(color);
        if i < filled {
            canvas.print_str("█");
        } else {
            canvas.foreground(colors.muted);
            canvas.print_str("░");
        }
        i += 1;
        proof {
            assert(canvas@ =~= start + cells_drawn(
                i as nat,
                cells as nat,
                filled as nat,
                *colors,
            ));
        }
    }
    canvas.foreground(colors.foreground);
    canvas.print_str("┐");
    proof {
        assert(start =~= old(canvas)@ + seq![
            Draw::MoveTo(area.x, sat_add(area.y as int, 2) as u16),
            Draw::Foreground(colors.foreground),
            Draw::Print("┌"@),
        ]);
        assert(canvas@ =~= old(canvas)@ + gauge_drawn(area, *info, *colors));
    }
}

/// Column at which a text of `len` characters starts when centred in `area`.
fn centre(area: Rect, len: usize) -> (r: u16)
    ensures
        r == centred(area, len as nat),
{
    let slack: u16 = if len >= area.width as usize {
        0
    } else {
        area.width - len as u16
    };
    area.x.saturating_add(slack / 2)
}

fn draw_reading(canvas: &mut Canvas, area: Rect, info: &TemperatureInfo, colors: &ColorScheme)
    ensures
        final(canvas)@ == old(canvas)@ + reading_drawn(area, *info, *colors),
{
    let row = area.y.saturating_add(3);
    canvas.move_to(area.x, row);
    canvas.foreground(colors.foreground);
    let mut text = String::new();
    push_fahrenheit(&mut text, info.temperature);
    text.append("°F (");
    push_decimal(&mut text, heat_percent_of(info.temperature, limit_for(info)) as u64);
    text.append("%)");
    proof {
        assert(text@ =~= reading_text(*info));
    }
    canvas.move_to(centre(area, char_count(text.as_str())), row);
    canvas.print(text);
    proof {
        assert(canvas@ =~= old(canvas)@ + reading_drawn(area, *info, *colors));
    }
}

fn draw_sensors(
    canvas: &mut Canvas,
    area: Rect,
    temperatures: &Vec<TemperatureInfo>,
    colors: &ColorScheme,
)
    requires
        area.height >= 6,
    ensures
        final(canvas)@ == old(canvas)@ + sensors_drawn(
            area,
            temperatures@,
            sensors_shown(area, temperatures@.len()),
            *colors,
        ),
{
    let rows: usize = (area.height - 5) as usize;
    let fitting: usize = if rows < temperatures.len() {
        rows
    } else {
        temperatures.len()
    };
    let shown: usize = if fitting < MAX_SENSORS {
        fitting
    } else {
        MAX_SENSORS
    };
    let mut i: usize = 0;
    while i < shown
        invariant
            i <= shown <= temperatures.len(),
            shown <= MAX_SENSORS,
            canvas@ == old(canvas)@ + sensors_drawn(area, temperatures@, i as nat, *colors),
        decreases shown - i,
    {
        let info = &temperatures[i];
        canvas.move_to(area.x, area.y.saturating_add(4).saturating_add(i as u16));
        let color = if info.temperature.reaches(80) {
            colors.error
        } else if info.temperature.reaches(65) {
            colors.warning
        } else {
            colors.muted
        };
        canvas.foreground(color);
        let label_len = char_count(info.label.as_str());
        let mut text = if label_len > LABEL_WIDTH {
            String::from_str(info.label.as_str().substring_char(0, LABEL_WIDTH))
        } else {
            info.label.clone()
        };
        text.append(": ");
        push_fahrenheit(&mut text, info.temperature);
        text.append("°F");
        proof {
            assert(text@ =~= sensor_text(*info));
        }
        canvas.print(fit(text.as_str(), area.width as usize));
        i += 1;
        proof {
            assert(canvas@ =~= old(canvas)@ + sensors_drawn(
                area,
                temperatures@,
                i as nat,
                *colors,
            ));
        }
    }
}

fn draw_note(canvas: &mut Canvas, area: Rect, colors: &ColorScheme)
    ensures
        final(canvas)@ == old(canvas)@ + note_drawn(area, *colors),
{
    let row = area.y.saturating_add(2);
    canvas.move_to(area.x, row);
    canvas.foreground(colors.muted);
    let text = "No temperature sensors detected";
    canvas.move_to(centre(area, char_count(text)), row);
    canvas.print_str(text);
    proof {
        assert(canvas@ =~= old(canvas)@ + note_drawn(area, *colors));
    }
}

} // verus!
