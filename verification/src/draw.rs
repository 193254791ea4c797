//! The drawing coordinator: one screen from a snapshot and a drawing state.

use crate::app::column_names;
use crate::canvas::{lemma_regroup, Canvas, Draw};
use crate::colors::ColorScheme;
use crate::layout::{gauge_regions, main_regions, Layout, Rect};
use crate::model::{rows, texts, ProcessInfo, SystemInfo, SystemSnapshot};
use crate::widgets::{
    CpuGauges, Footer, HelpOverlay, MemoryGauges, NetworkGauges, ProcessTable, TemperatureGauge,
    TopBar,
};
use vstd::prelude::*;
use vstd::string::*;

verus! {

/// State needed for drawing.
#[derive(Debug, PartialEq, Eq)]
pub struct DrawState {
    pub filtered_processes: Vec<ProcessInfo>,
    pub visible_columns: Vec<String>,
    pub selected_index: usize,
    pub table_start_index: usize,
    pub show_help: bool,
    pub in_filter_mode: bool,
    pub filter_text: String,
}

/// The headings of the columns of a fresh drawing state.
pub open spec fn standard_headings() -> Seq<Seq<char>> {
    seq!["PID"@, "NAME"@, "USER"@, "CPU%"@, "MEM%"@, "RSS"@, "STATE"@]
}

impl Default for DrawState {
    fn default() -> (r: Self)
        ensures
            r.filtered_processes@.len() == 0,
            texts(r.visible_columns@) == standard_headings(),
            r.selected_index == 0,
            r.table_start_index == 0,
            !r.show_help,
            !r.in_filter_mode,
            r.filter_text@.len() == 0,
    {
        let mut visible_columns: Vec<String> = Vec::new();
        visible_columns.push(String::from_str("PID"));
        visible_columns.push(String::from_str("NAME"));
        visible_columns.push(String::from_str("USER"));
        visible_columns.push(String::from_str("CPU%"));
        visible_columns.push(String::from_str("MEM%"));
        visible_columns.push(String::from_str("RSS"));
        visible_columns.push(String::from_str("STATE"));
        proof {
            assert(texts(visible_columns@) =~= standard_headings());
        }
        DrawState {
            filtered_processes: Vec::new(),
            visible_columns,
            selected_index: 0,
            table_start_index: 0,
            show_help: false,
            in_filter_mode: false,
            filter_text: String::new(),
        }
    }
}

/// The filter line that lies over the footer while a filter is typed.
pub open spec fn filter_input_drawn(area: Rect, filter: Seq<char>, colors: ColorScheme) -> Seq<
    Draw,
> {
    seq![
        Draw::MoveTo(area.x, area.y),
        Draw::Foreground(colors.accent),
        Draw::Background(colors.background),
        Draw::Print("Filter: "@ + filter + "_"@),
    ]
}

/// Main drawing coordinator.
pub struct Drawer {
    pub layout: Layout,
    pub colors: ColorScheme,
}

impl Drawer {
    /// A coordinator that draws with `layout` and `colors`.
    pub fn new(layout: Layout, colors: ColorScheme) -> (r: Self)
        ensures
            r.layout == layout,
            r.colors == colors,
    {
        Self { layout, colors }
    }

    /// What the two gauges draw into the gauges band `area`.
    pub open spec fn gauges_drawn(self, area: Rect, snapshot: SystemSnapshot) -> Seq<Draw> {
        CpuGauges::drawn(gauge_regions(area).cpu, snapshot.cpu_cores@, self.colors)
            + MemoryGauges::drawn(gauge_regions(area).memory, snapshot.memory, self.colors)
    }

    /// What the process table draws from the drawing state.
    pub open spec fn table_drawn(self, area: Rect, state: DrawState, now: u64) -> Seq<Draw> {
        ProcessTable::drawn(
            area,
            rows(state.filtered_processes@),
            texts(state.visible_columns@),
            state.selected_index as nat,
            state.table_start_index as nat,
            now,
            self.colors,
        )
    }

    /// What lies over the screen: the help where it is shown, and the
    /// filter line while a filter is typed.
    pub open spec fn overlays_drawn(self, footer: Rect, state: DrawState) -> Seq<Draw> {
        let help = if state.show_help {
            HelpOverlay::drawn(self.layout.spec_terminal_rect(), self.colors)
        } else {
            Seq::empty()
        };
        help + if state.in_filter_mode {
            filter_input_drawn(footer, state.filter_text@, self.colors)
        } else {
            Seq::empty()
        }
    }

    /// The complete screen of a snapshot at the time `now`: the cursor in
    /// the corner, the top bar, the gauges, the process table, the network
    /// and temperature panels, the footer, and what lies over them.
    pub open spec fn drawn(self, snapshot: SystemSnapshot, state: DrawState, now: u64) -> Seq<
        Draw,
    > {
        let terminal = self.layout.spec_terminal_rect();
        let regions = main_regions(terminal.width, terminal.height);
        seq![Draw::MoveTo(0, 0)] + (TopBar::drawn(
            regions.top_bar,
            snapshot.system,
            now,
            self.colors,
        ) + (self.gauges_drawn(regions.gauges, snapshot) + (self.table_drawn(
            regions.table,
            state,
            now,
        ) + (NetworkGauges::drawn(regions.network, snapshot.networks@, self.colors) + (
        TemperatureGauge::drawn(regions.temperature, snapshot.temperatures@, self.colors) + (
        Footer::drawn(regions.footer, self.colors) + self.overlays_drawn(
            regions.footer,
            state,
        )))))))
    }

    /// Draws the complete screen.
    pub fn draw(
        &mut self,
        canvas: &mut Canvas,
        snapshot: &SystemSnapshot,
        app_state: &DrawState,
        now: u64,
    )
        ensures
            final(canvas)@ == old(canvas)@ + old(self).drawn(*snapshot, *app_state, now),
            final(self).layout == old(self).layout,
            final(self).colors == old(self).colors,
    {
        let ghost start = canvas@;
        canvas.move_to(0, 0);
        let main_layout = self.layout.main_layout();
        self.draw_top_bar(canvas, main_layout.top_bar, &snapshot.system, now);
        self.draw_gauges(canvas, main_layout.gauges, snapshot);
        self.draw_process_table(canvas, main_layout.table, snapshot, app_state, now);
        self.draw_network_section(canvas, main_layout.network, snapshot);
        self.draw_temperature_section(canvas, main_layout.temperature, snapshot);
        self.draw_footer(canvas, main_layout.footer);
        self.draw_overlays(canvas, main_layout.footer, app_state);
        proof {
            let a = seq![Draw::MoveTo(0, 0)];
            let b = TopBar::drawn(main_layout.top_bar, snapshot.system, now, self.colors);
            let c = self.gauges_drawn(main_layout.gauges, *snapshot);
            let d = self.table_drawn(main_layout.table, *app_state, now);
            let e = NetworkGauges::drawn(main_layout.network, snapshot.networks@, self.colors);
            let f = TemperatureGauge::drawn(
                main_layout.temperature,
                snapshot.temperatures@,
                self.colors,
            );
            let g = Footer::drawn(main_layout.footer, self.colors);
            let h = self.overlays_drawn(main_layout.footer, *app_state);
            assert(start.push(Draw::MoveTo(0, 0)) =~= start + a);
            assert(canvas@ == start + a + b + c + d + e + f + g + h);
            lemma_regroup(start + a + b + c + d + e + f, g, h);
            lemma_regroup(start + a + b + c + d + e, f, g + h);
            lemma_regroup(start + a + b + c + d, e, f + (g + h));
            lemma_regroup(start + a + b + c, d, e + (f + (g + h)));
            lemma_regroup(start + a + b, c, d + (e + (f + (g + h))));
            lemma_regroup(start + a, b, c + (d + (e + (f + (g + h)))));
            lemma_regroup(start, a, b + (c + (d + (e + (f + (g + h))))));
        }
    }

    fn draw_top_bar(&self, canvas: &mut Canvas, area: Rect, system_info: &SystemInfo, now: u64)
        ensures
            final(canvas)@ == old(canvas)@ + TopBar::drawn(area, *system_info, now, self.colors),
    {
        let widget = TopBar;
        widget.render(canvas, area, system_info, now, &self.colors);
    }

    fn draw_gauges(&self, canvas: &mut Canvas, area: Rect, snapshot: &SystemSnapshot)
        ensures
            final(canvas)@ == old(canvas)@ + self.gauges_drawn(area, *snapshot),
    {
        let gauges_layout = self.layout.gauges_layout(area);
        let cpu_widget = CpuGauges;
        cpu_widget.render(canvas, gauges_layout.cpu, &snapshot.cpu_cores, &self.colors);
        let memory_widget = MemoryGauges;
        memory_widget.render(canvas, gauges_layout.memory, &snapshot.memory, &self.colors);
        proof {
            lemma_regroup(
                old(canvas)@,
                CpuGauges::drawn(gauge_regions(area).cpu, snapshot.cpu_cores@, self.colors),
                MemoryGauges::drawn(gauge_regions(area).memory, snapshot.memory, self.colors),
            );
        }
    }

    fn draw_process_table(
        &self,
        canvas: &mut Canvas,
        area: Rect,
        _snapshot: &SystemSnapshot,
        app_state: &DrawState,
        now: u64,
    )
        ensures
            final(canvas)@ == old(canvas)@ + self.table_drawn(area, *app_state, now),
    {
        let widget = ProcessTable;
        let columns = column_names(&app_state.visible_columns);
        widget.render(
            canvas,
            area,
            &app_state.filtered_processes,
            columns.as_slice(),
            app_state.selected_index,
            app_state.table_start_index,
            now,
            &self.colors,
        );
    }

    fn draw_network_section(&self, canvas: &mut Canvas, area: Rect, snapshot: &SystemSnapshot)
        ensures
            final(canvas)@ == old(canvas)@ + NetworkGauges::drawn(
                area,
                snapshot.networks@,
                self.colors,
            ),
    {
        let widget = NetworkGauges;
        widget.render(canvas, area, &snapshot.networks, &self.colors);
    }

    fn draw_temperature_section(&self, canvas: &mut Canvas, area: Rect, snapshot: &SystemSnapshot)
        ensures
            final(canvas)@ == old(canvas)@ + TemperatureGauge::drawn(
                area,
                snapshot.temperatures@,
                self.colors,
            ),
    {
        let widget = TemperatureGauge;
        widget.render(canvas, area, &snapshot.temperatures, &self.colors);
    }

    fn draw_footer(&self, canvas: &mut Canvas, area: Rect)
        ensures
            final(canvas)@ == old(canvas)@ + Footer::drawn(area, self.colors),
    {
        let widget = Footer;
        widget.render(canvas, area, &self.colors);
    }

    fn draw_overlays(&self, canvas: &mut Canvas, footer: Rect, app_state: &DrawState)
        ensures
            final(canvas)@ == old(canvas)@ + self.overlays_drawn(footer, *app_state),
    {
        if app_state.show_help {
            self.draw_help_overlay(canvas);
        }
        let ghost helped = canvas@;
        if app_state.in_filter_mode {
            self.draw_filter_input(canvas, footer, app_state.filter_text.as_str());
        }
        proof {
            let a = if app_state.show_help {
                HelpOverlay::drawn(self.layout.spec_terminal_rect(), self.colors)
            } else {
                Seq::empty()
            };
            let b = if app_state.in_filter_mode {
                filter_input_drawn(footer, app_state.filter_text@, self.colors)
            } else {
                Seq::empty()
            };
            assert(helped =~= old(canvas)@ + a);
            assert(canvas@ =~= helped + b);
            lemma_regroup(old(canvas)@, a, b);
        }
    }

    fn draw_help_overlay(&self, canvas: &mut Canvas)
        ensures
            final(canvas)@ == old(canvas)@ + HelpOverlay::drawn(
                self.layout.spec_terminal_rect(),
                self.colors,
            ),
    {
        let terminal_rect = self.layout.terminal_rect();
        let widget = HelpOverlay;
        widget.render(canvas, terminal_rect, &self.colors);
    }

    fn draw_filter_input(&self, canvas: &mut Canvas, area: Rect, filter_text: &str)
        ensures
            final(canvas)@ == old(canvas)@ + filter_input_drawn(area, filter_text@, self.colors),
    {
        canvas.move_to(area.x, area.y);
        canvas.foreground(self.colors.accent);
        canvas.background(self.colors.background);
        let mut prompt = String::from_str("Filter: ");
        prompt.append(filter_text);
        prompt.append("_");
        canvas.print(prompt);
        proof {
            assert(canvas@ =~= old(canvas)@ + filter_input_drawn(
                area,
                filter_text@,
                self.colors,
            ));
        }
    }

    /// Takes over a new terminal size.
    pub fn update_layout(&mut self, width: u16, height: u16)
        ensures
            final(self).layout.spec_terminal_rect() == (Rect { x: 0, y: 0, width, height }),
            final(self).colors == old(self).colors,
    {
        self.layout.update_terminal_size(width, height);
    }

    /// Takes over a new color scheme.
    pub fn update_colors(&mut self, colors: ColorScheme)
        ensures
            final(self).colors == colors,
            final(self).layout == old(self).layout,
    {
        self.colors = colors;
    }
}

} // verus!
