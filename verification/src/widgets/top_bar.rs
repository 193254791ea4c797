//! The top bar: host, system, uptime, load and time of day on one row.

use crate::canvas::{Canvas, Draw};
use crate::colors::ColorScheme;
use crate::layout::Rect;
use crate::model::SystemInfo;
use crate::numbers::{fixed_text, zero_padded};
use crate::text::{decimal, fit, fitted, push_decimal};
use vstd::prelude::*;
use vstd::string::*;

verus! {

/// Seconds in a minute, an hour and a day.
pub const SECONDS_PER_MINUTE: u64 = 60;

pub const SECONDS_PER_HOUR: u64 = 3600;

pub const SECONDS_PER_DAY: u64 = 86_400;

/// An uptime in days, hours and minutes.
pub open spec fn uptime_text(seconds: u64) -> Seq<char> {
    decimal((seconds / SECONDS_PER_DAY) as nat) + "d "@ + decimal(
        ((seconds % SECONDS_PER_DAY) / SECONDS_PER_HOUR) as nat,
    ) + "h "@ + decimal(((seconds % SECONDS_PER_HOUR) / SECONDS_PER_MINUTE) as nat) + "m"@
}

/// The three load averages, each with two decimals.
pub open spec fn load_text(system: SystemInfo) -> Seq<char> {
    "Load: "@ + fixed_text(system.load_avg_1.thousandths as int, 2) + " "@ + fixed_text(
        system.load_avg_5.thousandths as int,
        2,
    ) + " "@ + fixed_text(system.load_avg_15.thousandths as int, 2)
}

/// The time of day, in universal time, of the instant `now` seconds after
/// the epoch: hours, minutes and seconds with two digits each.
pub open spec fn time_text(now: u64) -> Seq<char> {
    zero_padded(((now % SECONDS_PER_DAY) / SECONDS_PER_HOUR) as nat, 2) + ":"@ + zero_padded(
        ((now % SECONDS_PER_HOUR) / SECONDS_PER_MINUTE) as nat,
        2,
    ) + ":"@ + zero_padded((now % SECONDS_PER_MINUTE) as nat, 2)
}

/// The line of the top bar, before it is fitted to the screen.
pub open spec fn bar_text(system: SystemInfo, now: u64) -> Seq<char> {
    system.hostname@ + " | "@ + system.os_name@ + " "@ + system.os_version@ + " | Up: "@
        + uptime_text(system.uptime) + " | "@ + load_text(system) + " | "@ + time_text(now)
}

/// Top bar widget showing system information.
pub struct TopBar;

impl TopBar {
    /// What the top bar draws in `area`: nothing without a row, else its
    /// line, cut or filled to the width of the area.
    pub open spec fn drawn(area: Rect, system: SystemInfo, now: u64, colors: ColorScheme) -> Seq<
        Draw,
    > {
        if area.height == 0 {
            Seq::empty()
        } else {
            seq![
                Draw::MoveTo(area.x, area.y),
                Draw::Foreground(colors.foreground),
                Draw::Background(colors.background),
                Draw::Print(fitted(bar_text(system, now), area.width as nat)),
            ]
        }
    }

    /// Draws the top bar into `area`, at the time `now` in seconds since the epoch.
    pub fn render(
        &self,
        canvas: &mut Canvas,
        area: Rect,
        system_info: &SystemInfo,
        now: u64,
        colors: &ColorScheme,
    )
        ensures
            final(canvas)@ == old(canvas)@ + Self::drawn(area, *system_info, now, *colors),
    {
        if area.height == 0 {
            proof {
                assert(canvas@ =~= old(canvas)@ + Self::drawn(area, *system_info, now, *colors));
            }
            return ;
        }
        canvas.move_to(area.x, area.y);
        canvas.foreground(colors.foreground);
        canvas.background(colors.background);
        let mut content = system_info.hostname.clone();
        content.append(" | ");
        content.append(system_info.os_name.as_str());
        content.append(" ");
        content.append(system_info.os_version.as_str());
        content.append(" | Up: ");
        push_uptime(&mut content, system_info.uptime);
        content.append(" | ");
        push_load(&mut content, system_info);
        content.append(" | ");
        push_time(&mut content, now);
        canvas.print(fit(content.as_str(), area.width as usize));
        proof {
            assert(canvas@ =~= old(canvas)@ + Self::drawn(area, *system_info, now, *colors));
        }
    }
}

fn push_uptime(s: &mut String, seconds: u64)
    ensures
        final(s)@ == old(s)@ + uptime_text(seconds),
{
    push_decimal(s, seconds / SECONDS_PER_DAY);
    s.append("d ");
    push_decimal(s, (seconds % SECONDS_PER_DAY) / SECONDS_PER_HOUR);
    s.append("h ");
    push_decimal(s, (seconds % SECONDS_PER_HOUR) / SECONDS_PER_MINUTE);
    s.append("m");
    proof {
        assert(s@ =~= old(s)@ + uptime_text(seconds));
    }
}

fn push_load(s: &mut String, system: &SystemInfo)
    ensures
        final(s)@ == old(s)@ + load_text(*system),
{
    s.append("Load: ");
    s.append(system.load_avg_1.format(2).as_str());
    s.append(" ");
    s.append(system.load_avg_5.format(2).as_str());
    s.append(" ");
    s.append(system.load_avg_15.format(2).as_str());
    proof {
        assert(s@ =~= old(s)@ + load_text(*system));
    }
}

fn push_time(s: &mut String, now: u64)
    ensures
        final(s)@ == old(s)@ + time_text(now),
{
    crate::numbers::push_zero_padded(s, (now % SECONDS_PER_DAY) / SECONDS_PER_HOUR, 2);
    s.append(":");
    crate::numbers::push_zero_padded(s, (now % SECONDS_PER_HOUR) / SECONDS_PER_MINUTE, 2);
    s.append(":");
    crate::numbers::push_zero_padded(s, now % SECONDS_PER_MINUTE, 2);
    proof {
        assert(s@ =~= old(s)@ + time_text(now));
    }
}

} // verus!
