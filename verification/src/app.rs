//! The application: its view state, the step it takes on every input
//! event, and the screen it draws.

use crate::canvas::{lemma_regroup, Canvas, Draw};
use crate::colors::ColorScheme;
use crate::config::Config;
use crate::input::{InputEvent, InputHandler};
use crate::layout::{gauge_regions, main_regions, Layout, MainLayout, Rect};
use crate::metrics::{MetricsCollector, Readings};
use crate::model::{rows, texts, ProcessColumns, ProcessInfo, ProcessRow, SortKey, SystemSnapshot};
use crate::process_view::{
    clamp_index, clamped_selection, filter_processes, filtered, listed, scroll_start,
    scrolled_start, sort_processes,
};
use crate::widgets::{
    CpuGauges, Footer, HelpOverlay, MemoryGauges, NetworkGauges, ProcessTable, TemperatureGauge,
    TopBar,
};
use vstd::prelude::*;
use vstd::string::*;

verus! {

/// Where the application stands between its input events.
#[derive(Debug, Clone, Copy, PartialEq, Eq, Structural)]
pub enum Mode {
    Running,
    FilterEditing,
    HelpShown,
    Quitting,
}

/// The state that input events act on, as mathematical values.
pub struct ViewState {
    pub sort: SortKey,
    pub reverse: bool,
    pub filter: Seq<char>,
    pub selected: nat,
    pub start: nat,
    pub show_help: bool,
    pub quit: bool,
    pub tree_view: bool,
    pub filtering: bool,
    pub terminal: Rect,
}

impl ViewState {
    /// The mode of the state: quitting is final, help lies over everything
    /// else, and typing a filter over running.
    pub open spec fn mode(self) -> Mode {
        if self.quit {
            Mode::Quitting
        } else if self.show_help {
            Mode::HelpShown
        } else if self.filtering {
            Mode::FilterEditing
        } else {
            Mode::Running
        }
    }

    /// Rows of the process table below its heading.
    pub open spec fn visible_rows(self) -> nat {
        let table = main_regions(self.terminal.width, self.terminal.height).table;
        if table.height >= 1 {
            (table.height - 1) as nat
        } else {
            0
        }
    }

    /// The state with the selection and the window left alone: what the
    /// event itself changes. While the help is shown, only quitting, the
    /// help key, escape, a resize and a tick are heard.
    pub open spec fn acted(self, event: InputEvent, count: nat) -> ViewState {
        match event {
            InputEvent::Quit => ViewState { quit: true, ..self },
            InputEvent::ShowHelp => ViewState { show_help: !self.show_help, ..self },
            InputEvent::Resize(width, height) => ViewState {
                terminal: Rect { x: 0, y: 0, width, height },
                ..self
            },
            InputEvent::Tick => self,
            _ => if self.show_help {
                if event == InputEvent::ClearFilter {
                    ViewState { show_help: false, ..self }
                } else {
                    self
                }
            } else {
                self.commanded(event, count)
            },
        }
    }

    /// What a command does to the state outside the help: `count` is the
    /// number of rows that pass the filter as it stands.
    pub open spec fn commanded(self, event: InputEvent, count: nat) -> ViewState {
        match event {
            InputEvent::MoveUp => ViewState { selected: moved_up(self.selected, 1), ..self },
            InputEvent::MoveDown => ViewState { selected: moved_down(self.selected, 1), ..self },
            InputEvent::PageUp => ViewState {
                selected: moved_up(self.selected, self.visible_rows()),
                ..self
            },
            InputEvent::PageDown => ViewState {
                selected: moved_down(self.selected, self.visible_rows()),
                ..self
            },
            InputEvent::Home => ViewState { selected: 0, ..self },
            InputEvent::End => ViewState {
                selected: if count == 0 {
                    0
                } else {
                    (count - 1) as nat
                },
                ..self
            },
            InputEvent::CycleSort => ViewState {
                sort: self.sort.successor(),
                reverse: self.sort.successor().descends_by_default(),
                ..self
            },
            InputEvent::ClearFilter => ViewState {
                filter: Seq::empty(),
                filtering: false,
                ..self
            },
            InputEvent::FilterChar(c) => ViewState { filter: self.filter.push(c), ..self },
            InputEvent::FilterBackspace => ViewState {
                filter: if self.filter.len() > 0 {
                    self.filter.drop_last()
                } else {
                    self.filter
                },
                ..self
            },
            InputEvent::ToggleTreeView => ViewState { tree_view: !self.tree_view, ..self },
            _ => self,
        }
    }

    /// The state with the selection held inside a list of `count` rows and
    /// the window moved to show it.
    pub open spec fn settled(self, count: nat) -> ViewState {
        let selected = clamped_selection(self.selected, count);
        ViewState {
            selected,
            start: scrolled_start(self.start, selected, count, self.visible_rows()),
            ..self
        }
    }

    /// The state after an input event, over the processes `list` of the
    /// current snapshot: the event acts, then the selection is settled
    /// among the rows that pass the filter as it then stands.
    pub open spec fn step(self, event: InputEvent, list: Seq<ProcessRow>) -> ViewState {
        let acted = self.acted(event, filtered(list, self.filter).len());
        acted.settled(filtered(list, acted.filter).len())
    }
}

/// The selection moved `by` rows towards the first row.
pub open spec fn moved_up(selected: nat, by: nat) -> nat {
    if selected >= by {
        (selected - by) as nat
    } else {
        0
    }
}

/// The selection moved `by` rows towards the last row, held at the largest
/// index.
pub open spec fn moved_down(selected: nat, by: nat) -> nat {
    if selected + by > usize::MAX {
        usize::MAX as nat
    } else {
        selected + by
    }
}

/// After every input event the selection is in bounds: it points at one of
/// the rows that pass the filter, or at zero where none passes; and the
/// window is reset where none passes. In particular a filter that leaves
/// fewer rows than the selection had before it pulls the selection back to
/// the last of them.
pub proof fn lemma_selection_stays_in_bounds(
    state: ViewState,
    event: InputEvent,
    list: Seq<ProcessRow>,
)
    ensures
        ({
            let next = state.step(event, list);
            let count = filtered(list, next.filter).len();
            &&& count > 0 ==> next.selected < count
            &&& count == 0 ==> next.selected == 0 && next.start == 0
            &&& next.selected <= state.acted(event, filtered(list, state.filter).len()).selected
            &&& count > 0 && next.visible_rows() > 0 ==> next.start <= next.selected < next.start
                + next.visible_rows()
        }),
{
}

/// Quitting is final: no event leaves it. And the quit event leads there
/// from every mode.
pub proof fn lemma_quitting_is_final(state: ViewState, event: InputEvent, list: Seq<ProcessRow>)
    ensures
        state.mode() == Mode::Quitting ==> state.step(event, list).mode() == Mode::Quitting,
        state.step(InputEvent::Quit, list).mode() == Mode::Quitting,
{
}

/// The help opens on the help key and closes on the help key or escape;
/// while it is shown, no command moves the selection, changes the order
/// or edits the filter.
pub proof fn lemma_help_is_modal(state: ViewState, event: InputEvent, list: Seq<ProcessRow>)
    requires
        state.mode() == Mode::HelpShown,
    ensures
        state.step(InputEvent::ShowHelp, list).show_help == false,
        state.step(InputEvent::ClearFilter, list).show_help == false,
        state.step(event, list).sort == state.sort,
        state.step(event, list).reverse == state.reverse,
        state.step(event, list).filter == state.filter,
        event != InputEvent::ShowHelp && event != InputEvent::ClearFilter && event
            != InputEvent::Quit ==> state.step(event, list).mode() == Mode::HelpShown,
{
}

/// Four turns of the sort key lead back to the key and the direction that
/// the first turn started from.
pub proof fn lemma_sort_cycle(state: ViewState, list: Seq<ProcessRow>)
    requires
        !state.show_help,
    ensures
        state.step(InputEvent::CycleSort, list).step(InputEvent::CycleSort, list).step(
            InputEvent::CycleSort,
            list,
        ).step(InputEvent::CycleSort, list).sort == state.sort,
        state.step(InputEvent::CycleSort, list).reverse == state.sort.successor().descends_by_default(),
{
}

/// Application state.
pub struct App {
    pub config: Config,
    pub metrics_collector: MetricsCollector,
    pub input_handler: InputHandler,
    pub colors: ColorScheme,
    pub layout: Layout,
    pub current_snapshot: Option<SystemSnapshot>,
    /// Timestamp of the current snapshot, in seconds since the epoch.
    pub last_update: u64,
    pub selected_process_index: usize,
    pub table_start_index: usize,
    pub current_sort: SortKey,
    pub sort_reverse: bool,
    pub filter_text: String,
    pub visible_columns: Vec<String>,
    pub show_help: bool,
    pub quit_requested: bool,
    pub tree_view: bool,
    pub update_count: u64,
    pub render_count: u64,
}

/// Shortest wait for input, in milliseconds, when a refresh is overdue.
pub const MIN_WAIT_MS: u64 = 10;

/// The headings of the columns that `columns` switches on, in the order of
/// the table.
pub open spec fn enabled_columns(columns: ProcessColumns) -> Seq<Seq<char>> {
    optional_column(columns.pid, "PID"@) + optional_column(columns.name, "NAME"@)
        + optional_column(columns.user, "USER"@) + optional_column(columns.cpu_percent, "CPU%"@)
        + optional_column(columns.memory_percent, "MEM%"@) + optional_column(
        columns.memory_rss,
        "RSS"@,
    ) + optional_column(columns.memory_vsz, "VSZ"@) + optional_column(columns.threads, "THR"@)
        + optional_column(columns.state, "STATE"@) + optional_column(columns.start_time, "TIME"@)
}

/// The heading, if the column is switched on.
pub open spec fn optional_column(enabled: bool, heading: Seq<char>) -> Seq<Seq<char>> {
    if enabled {
        seq![heading]
    } else {
        Seq::empty()
    }
}

impl View for App {
    type V = ViewState;

    open spec fn view(&self) -> ViewState {
        ViewState {
            sort: self.current_sort,
            reverse: self.sort_reverse,
            filter: self.filter_text@,
            selected: self.selected_process_index as nat,
            start: self.table_start_index as nat,
            show_help: self.show_help,
            quit: self.quit_requested,
            tree_view: self.tree_view,
            filtering: self.input_handler.in_filter_mode,
            terminal: self.layout.spec_terminal_rect(),
        }
    }
}

impl App {
    /// The processes of the current snapshot, none before the first.
    pub open spec fn process_rows(self) -> Seq<ProcessRow> {
        match self.current_snapshot {
            Some(snapshot) => rows(snapshot.processes@),
            None => Seq::empty(),
        }
    }

    /// The rows of the table: the processes of the current snapshot that
    /// pass the filter, in the order of the sort key.
    pub open spec fn listed_rows(self) -> Seq<ProcessRow> {
        listed(self.process_rows(), self.filter_text@, self.current_sort, self.sort_reverse)
    }

    /// The process id of the selected row, if the selection points at one.
    pub open spec fn selected_row_pid(self) -> Option<u32> {
        if self.current_snapshot is Some && self.selected_process_index < self.listed_rows().len() {
            Some(self.listed_rows()[self.selected_process_index as int].pid)
        } else {
            None
        }
    }

    /// What the parts that show the snapshot draw into the regions
    /// `regions`: nothing before the first snapshot.
    pub open spec fn dashboard_drawn(self, regions: MainLayout, now: u64) -> Seq<Draw> {
        match self.current_snapshot {
            Some(snapshot) => TopBar::drawn(regions.top_bar, snapshot.system, now, self.colors) + (
            CpuGauges::drawn(gauge_regions(regions.gauges).cpu, snapshot.cpu_cores@, self.colors)
                + (MemoryGauges::drawn(
                gauge_regions(regions.gauges).memory,
                snapshot.memory,
                self.colors,
            ) + (ProcessTable::drawn(
                regions.table,
                self.listed_rows(),
                texts(self.visible_columns@),
                self.selected_process_index as nat,
                self.table_start_index as nat,
                now,
                self.colors,
            ) + (NetworkGauges::drawn(regions.network, snapshot.networks@, self.colors)
                + TemperatureGauge::drawn(
                regions.temperature,
                snapshot.temperatures@,
                self.colors,
            ))))),
            None => Seq::empty(),
        }
    }

    /// What the application draws at the time `now`.
    pub open spec fn drawn(self, now: u64) -> Seq<Draw> {
        let terminal = self.layout.spec_terminal_rect();
        let regions = main_regions(terminal.width, terminal.height);
        seq![Draw::MoveTo(0, 0)] + (self.dashboard_drawn(regions, now) + (Footer::drawn(
            regions.footer,
            self.colors,
        ) + (if self.show_help {
            HelpOverlay::drawn(terminal, self.colors)
        } else {
            Seq::empty()
        } + if self.input_handler.in_filter_mode {
            filter_prompt_drawn(regions.footer, self.filter_text@)
        } else {
            Seq::empty()
        })))
    }

    /// Whether everything but the view state is as in `other`.
    pub open spec fn same_data(self, other: App) -> bool {
        &&& self.config == other.config
        &&& self.metrics_collector == other.metrics_collector
        &&& self.colors == other.colors
        &&& self.current_snapshot == other.current_snapshot
        &&& self.last_update == other.last_update
        &&& self.visible_columns == other.visible_columns
        &&& self.update_count == other.update_count
        &&& self.render_count == other.render_count
    }

    /// An application for a terminal of the given size that has taken
    /// `baseline` as its first readings: nothing selected, no filter, the
    /// table ordered by processor usage, busiest first.
    pub fn new(
        config: Config,
        width: u16,
        height: u16,
        estimate_cache: bool,
        baseline: &Readings,
    ) -> (app: Self)
        ensures
            app@ == (ViewState {
                sort: SortKey::Cpu,
                reverse: true,
                filter: Seq::empty(),
                selected: 0,
                start: 0,
                show_help: false,
                quit: false,
                tree_view: false,
                filtering: false,
                terminal: Rect { x: 0, y: 0, width, height },
            }),
            app.config == config,
            app.colors == ColorScheme::chosen(config.theme, config.no_color),
            app.current_snapshot is None,
            texts(app.visible_columns@) == enabled_columns(config.process_columns),
            app.update_count == 0,
            app.render_count == 0,
    {
        let mut metrics_collector = MetricsCollector::new(estimate_cache);
        metrics_collector.init(baseline);
        let colors = ColorScheme::new(&config.theme, config.no_color);
        let layout = Layout::new(width, height);
        let input_handler = InputHandler::new();
        let visible_columns = Self::default_visible_columns(&config.process_columns);
        App {
            config,
            metrics_collector,
            input_handler,
            colors,
            layout,
            current_snapshot: None,
            last_update: 0,
            selected_process_index: 0,
            table_start_index: 0,
            current_sort: SortKey::Cpu,
            sort_reverse: true,
            filter_text: String::new(),
            visible_columns,
            show_help: false,
            quit_requested: false,
            tree_view: false,
            update_count: 0,
            render_count: 0,
        }
    }

    /// Milliseconds to wait for input when `elapsed_ms` have passed since
    /// the last refresh: the rest of the refresh interval, or a short wait
    /// where the refresh is due.
    pub fn next_timeout(&self, elapsed_ms: u64) -> (wait: u64)
        ensures
            wait == if elapsed_ms >= self.config.refresh_ms {
                MIN_WAIT_MS
            } else {
                (self.config.refresh_ms - elapsed_ms) as u64
            },
            wait > 0,
    {
        if elapsed_ms >= self.config.refresh_ms {
            MIN_WAIT_MS
        } else {
            self.config.refresh_ms - elapsed_ms
        }
    }

    /// Whether a refresh is due when `elapsed_ms` have passed since the
    /// last: in every mode but quitting.
    pub fn refresh_due(&self, elapsed_ms: u64) -> (due: bool)
        ensures
            due == (!self.quit_requested && elapsed_ms >= self.config.refresh_ms),
    {
        !self.quit_requested && elapsed_ms >= self.config.refresh_ms
    }

    /// Whether the loop is to end.
    pub fn should_quit(&self) -> (r: bool)
        ensures
            r == (self@.mode() == Mode::Quitting),
    {
        self.quit_requested
    }

    /// The mode the application is in.
    pub fn mode(&self) -> (r: Mode)
        ensures
            r == self@.mode(),
    {
        if self.quit_requested {
            Mode::Quitting
        } else if self.show_help {
            Mode::HelpShown
        } else if self.input_handler.is_in_filter_mode() {
            Mode::FilterEditing
        } else {
            Mode::Running
        }
    }

    /// Takes the readings of one poll: the snapshot made of them replaces
    /// the current one. The view state stays as it is.
    pub fn update_data(&mut self, readings: &Readings, now: u64)
        ensures
            final(self).current_snapshot is Some,
            crate::metrics::is_snapshot_of(
                final(self).current_snapshot->0,
                *readings,
                now,
                old(self).metrics_collector.disk@,
                old(self).metrics_collector.network@,
                old(self).metrics_collector.memory.estimate_cache,
            ),
            final(self).metrics_collector.disk@ == crate::metrics::disk::disks_seen(
                old(self).metrics_collector.disk@,
                readings.disk_readings(),
            ),
            final(self).metrics_collector.network@ == crate::metrics::network::networks_seen(
                old(self).metrics_collector.network@,
                readings.network_readings(),
            ),
            final(self).last_update == now,
            final(self)@ == old(self)@,
            final(self).update_count == if old(self).update_count == u64::MAX {
                u64::MAX
            } else {
                (old(self).update_count + 1) as u64
            },
            final(self).render_count == old(self).render_count,
            final(self).config == old(self).config,
            final(self).visible_columns == old(self).visible_columns,
            final(self).colors == old(self).colors,
    {
        let snapshot = self.metrics_collector.collect(readings, now);
        self.current_snapshot = Some(snapshot);
        self.update_count = self.update_count.saturating_add(1);
        self.last_update = now;
    }

    /// Whether the screen is drawn again after the event: after every
    /// event but the one that quits.
    pub fn needs_redraw_after_input(&self, event: &InputEvent) -> (r: bool)
        ensures
            r == (*event != InputEvent::Quit),
    {
        match event {
            InputEvent::Quit => false,
            _ => true,
        }
    }

    /// Number of rows of the process table below its heading.
    pub fn get_visible_rows(&self) -> (r: usize)
        ensures
            r == self@.visible_rows(),
    {
        let main_layout = self.layout.main_layout();
        main_layout.table.height.saturating_sub(1) as usize
    }

    /// The headings of the columns that the configuration switches on.
    pub fn default_visible_columns(columns: &ProcessColumns) -> (visible: Vec<String>)
        ensures
            texts(visible@) == enabled_columns(*columns),
    {
        let mut visible: Vec<String> = Vec::new();
        proof {
            assert(texts(visible@) =~= Seq::<Seq<char>>::empty());
            assert(Seq::<Seq<char>>::empty() + optional_column(columns.pid, "PID"@)
                =~= optional_column(columns.pid, "PID"@));
        }
        push_column(&mut visible, columns.pid, "PID");
        push_column(&mut visible, columns.name, "NAME");
        push_column(&mut visible, columns.user, "USER");
        push_column(&mut visible, columns.cpu_percent, "CPU%");
        push_column(&mut visible, columns.memory_percent, "MEM%");
        push_column(&mut visible, columns.memory_rss, "RSS");
        push_column(&mut visible, columns.memory_vsz, "VSZ");
        push_column(&mut visible, columns.threads, "THR");
        push_column(&mut visible, columns.state, "STATE");
        push_column(&mut visible, columns.start_time, "TIME");
        visible
    }

    /// Copies of the processes that pass the filter text.
    pub fn get_filtered_processes(&self, processes: &Vec<ProcessInfo>) -> (r: Vec<ProcessInfo>)
        ensures
            rows(r@) == filtered(rows(processes@), self.filter_text@),
    {
        filter_processes(processes, self.filter_text.as_str())
    }

    /// Copies of the processes that pass the filter text, in the order of
    /// the current sort key.
    pub fn get_filtered_sorted_processes(&self, processes: &Vec<ProcessInfo>) -> (r: Vec<
        ProcessInfo,
    >)
        ensures
            rows(r@) == listed(
                rows(processes@),
                self.filter_text@,
                self.current_sort,
                self.sort_reverse,
            ),
    {
        let mut filtered = self.get_filtered_processes(processes);
        self.sort_processes(&mut filtered);
        filtered
    }

    /// Orders `processes` by the current sort key and direction.
    pub fn sort_processes(&self, processes: &mut Vec<ProcessInfo>)
        ensures
            rows(final(processes)@) == crate::process_view::sorted_rows(
                rows(old(processes)@),
                self.current_sort,
                self.sort_reverse,
            ),
    {
        sort_processes(processes, self.current_sort, self.sort_reverse);
    }

    /// Number of processes of the current snapshot that pass the filter.
    pub fn filtered_count(&self) -> (count: usize)
        ensures
            count == filtered(self.process_rows(), self.filter_text@).len(),
    {
        match &self.current_snapshot {
            Some(snapshot) => self.get_filtered_processes(&snapshot.processes).len(),
            None => {
                proof {
                    crate::process_view::lemma_empty_rows(self.filter_text@);
                }
                0
            },
        }
    }

    /// Moves the selection by `delta` rows and settles it.
    pub fn move_selection(&mut self, delta: isize)
        ensures
            final(self)@ == (ViewState {
                selected: if delta < 0 {
                    moved_up(old(self)@.selected, (-delta) as nat)
                } else {
                    moved_down(old(self)@.selected, delta as nat)
                },
                ..old(self)@
            }).settled(filtered(old(self).process_rows(), old(self).filter_text@).len()),
            final(self).same_data(*old(self)),
    {
        let new_index = if delta < 0 {
            let by: usize = if delta == isize::MIN {
                (isize::MAX as usize) + 1
            } else {
                (-delta) as usize
            };
            self.selected_process_index.saturating_sub(by)
        } else {
            self.selected_process_index.saturating_add(delta as usize)
        };
        self.selected_process_index = new_index;
        self.clamp_selection();
    }

    /// Holds the selection inside the rows that pass the filter and moves
    /// the window to show it.
    pub fn clamp_selection(&mut self)
        ensures
            final(self)@ == old(self)@.settled(
                filtered(old(self).process_rows(), old(self).filter_text@).len(),
            ),
            final(self).same_data(*old(self)),
    {
        let process_count = self.filtered_count();
        let visible_rows = self.get_visible_rows();
        self.selected_process_index = clamp_index(self.selected_process_index, process_count);
        self.table_start_index = scroll_start(
            self.table_start_index,
            self.selected_process_index,
            process_count,
            visible_rows,
        );
    }

    /// The process id of the selected row of the table, if the selection
    /// points at a row: the process that a request to end a process means.
    pub fn selected_pid(&self) -> (r: Option<u32>)
        ensures
            r == self.selected_row_pid(),
    {
        match &self.current_snapshot {
            Some(snapshot) => {
                let list = self.get_filtered_sorted_processes(&snapshot.processes);
                if self.selected_process_index < list.len() {
                    proof {
                        assert(rows(list@)[self.selected_process_index as int]
                            == list[self.selected_process_index as int]@);
                    }
                    Some(list[self.selected_process_index].pid)
                } else {
                    None
                }
            },
            None => None,
        }
    }

    /// The screen: the cursor in the corner, the parts of the dashboard
    /// where there is a snapshot, the footer, the help where it is shown,
    /// and the filter prompt while a filter is typed.
    pub fn render(&mut self, canvas: &mut Canvas, now: u64)
        ensures
            final(canvas)@ == old(canvas)@ + old(self).drawn(now),
            final(self)@ == old(self)@,
            final(self).current_snapshot == old(self).current_snapshot,
            final(self).config == old(self).config,
            final(self).colors == old(self).colors,
            final(self).visible_columns == old(self).visible_columns,
            final(self).update_count == old(self).update_count,
            final(self).render_count == if old(self).render_count == u64::MAX {
                u64::MAX
            } else {
                (old(self).render_count + 1) as u64
            },
    {
        let ghost start = canvas@;
        canvas.move_to(0, 0);
        let terminal_rect = self.layout.terminal_rect();
        let main_layout = self.layout.main_layout();
        self.render_dashboard(canvas, main_layout, now);
        let footer = Footer;
        footer.render(canvas, main_layout.footer, &self.colors);
        if self.show_help {
            let help = HelpOverlay;
            help.render(canvas, terminal_rect, &self.colors);
        }
        if self.input_handler.is_in_filter_mode() {
            self.render_filter_prompt(canvas, main_layout.footer);
        }
        self.render_count = self.render_count.saturating_add(1);
        proof {
            let app = *old(self);
            let a = seq![Draw::MoveTo(0, 0)];
            let b = app.dashboard_drawn(main_layout, now);
            let c = Footer::drawn(main_layout.footer, app.colors);
            let d = if app.show_help {
                HelpOverlay::drawn(terminal_rect, app.colors)
            } else {
                Seq::empty()
            };
            let e = if app.input_handler.in_filter_mode {
                filter_prompt_drawn(main_layout.footer, app.filter_text@)
            } else {
                Seq::empty()
            };
            assert(start.push(Draw::MoveTo(0, 0)) =~= start + a);
            assert(start + a + b + c + Seq::<Draw>::empty() =~= start + a + b + c);
            assert(start + a + b + c + d + Seq::<Draw>::empty() =~= start + a + b + c + d);
            assert(canvas@ == start + a + b + c + d + e);
            lemma_regroup(start + a + b + c, d, e);
            lemma_regroup(start + a + b, c, d + e);
            lemma_regroup(start + a, b, c + (d + e));
            lemma_regroup(start, a, b + (c + (d + e)));
        }
    }

    /// Draws the parts that show the current snapshot.
    fn render_dashboard(&self, canvas: &mut Canvas, main_layout: MainLayout, now: u64)
        ensures
            final(canvas)@ == old(canvas)@ + self.dashboard_drawn(main_layout, now),
    {
        match &self.current_snapshot {
            Some(snapshot) => {
                let ghost start = canvas@;
                let top_bar = TopBar;
                top_bar.render(canvas, main_layout.top_bar, &snapshot.system, now, &self.colors);
                let gauges_layout = self.layout.gauges_layout(main_layout.gauges);
                let cpu_gauges = CpuGauges;
                cpu_gauges.render(canvas, gauges_layout.cpu, &snapshot.cpu_cores, &self.colors);
                let memory_gauges = MemoryGauges;
                memory_gauges.render(canvas, gauges_layout.memory, &snapshot.memory, &self.colors);
                let filtered_processes = self.get_filtered_sorted_processes(&snapshot.processes);
                let columns = column_names(&self.visible_columns);
                let process_table = ProcessTable;
                process_table.render(
                    canvas,
                    main_layout.table,
                    &filtered_processes,
                    columns.as_slice(),
                    self.selected_process_index,
                    self.table_start_index,
                    now,
                    &self.colors,
                );
                let network_gauges = NetworkGauges;
                network_gauges.render(canvas, main_layout.network, &snapshot.networks, &self.colors);
                let temperature_gauge = TemperatureGauge;
                temperature_gauge.render(
                    canvas,
                    main_layout.temperature,
                    &snapshot.temperatures,
                    &self.colors,
                );
                proof {
                    let a = TopBar::drawn(main_layout.top_bar, snapshot.system, now, self.colors);
                    let b = CpuGauges::drawn(
                        gauge_regions(main_layout.gauges).cpu,
                        snapshot.cpu_cores@,
                        self.colors,
                    );
                    let c = MemoryGauges::drawn(
                        gauge_regions(main_layout.gauges).memory,
                        snapshot.memory,
                        self.colors,
                    );
                    let d = ProcessTable::drawn(
                        main_layout.table,
                        self.listed_rows(),
                        texts(self.visible_columns@),
                        self.selected_process_index as nat,
                        self.table_start_index as nat,
                        now,
                        self.colors,
                    );
                    let e = NetworkGauges::drawn(
                        main_layout.network,
                        snapshot.networks@,
                        self.colors,
                    );
                    let f = TemperatureGauge::drawn(
                        main_layout.temperature,
                        snapshot.temperatures@,
                        self.colors,
                    );
                    assert(canvas@ == start + a + b + c + d + e + f);
                    lemma_regroup(start + a + b + c + d, e, f);
                    lemma_regroup(start + a + b + c, d, e + f);
                    lemma_regroup(start + a + b, c, d + (e + f));
                    lemma_regroup(start + a, b, c + (d + (e + f)));
                    lemma_regroup(start, a, b + (c + (d + (e + f))));
                }
            },
            None => {
                proof {
                    assert(canvas@ =~= old(canvas)@ + Seq::<Draw>::empty());
                }
            },
        }
    }

    /// Draws the filter prompt over the footer.
    fn render_filter_prompt(&self, canvas: &mut Canvas, area: Rect)
        ensures
            final(canvas)@ == old(canvas)@ + filter_prompt_drawn(area, self.filter_text@),
    {
        canvas.move_to(area.x, area.y);
        let mut prompt = String::from_str("Filter: ");
        prompt.append(self.filter_text.as_str());
        prompt.append("_");
        canvas.print(prompt);
        proof {
            assert(canvas@ =~= old(canvas)@ + filter_prompt_drawn(area, self.filter_text@));
        }
    }

    /// Handles one input event: the event acts on the view state, then the
    /// selection is settled. The snapshot and the configuration stay as
    /// they are.
    pub fn handle_event(&mut self, event: InputEvent)
        ensures
            final(self)@ == old(self)@.step(event, old(self).process_rows()),
            final(self).same_data(*old(self)),
    {
        match event {
            InputEvent::Quit => {
                self.quit_requested = true;
            },
            InputEvent::ShowHelp => {
                self.show_help = !self.show_help;
            },
            InputEvent::Resize(width, height) => {
                self.layout.update_terminal_size(width, height);
            },
            InputEvent::Tick => {},
            _ => {
                if self.show_help {
                    match event {
                        InputEvent::ClearFilter => {
                            self.show_help = false;
                        },
                        _ => {},
                    }
                } else {
                    self.handle_command(event);
                }
            },
        }
        self.clamp_selection();
    }

    /// Carries out a command outside the help.
    fn handle_command(&mut self, event: InputEvent)
        requires
            !old(self).show_help,
        ensures
            final(self)@ == old(self)@.commanded(
                event,
                filtered(old(self).process_rows(), old(self).filter_text@).len(),
            ),
            final(self).same_data(*old(self)),
    {
        match event {
            InputEvent::MoveUp => {
                self.selected_process_index = self.selected_process_index.saturating_sub(1);
            },
            InputEvent::MoveDown => {
                self.selected_process_index = self.selected_process_index.saturating_add(1);
            },
            InputEvent::PageUp => {
                let rows = self.get_visible_rows();
                self.selected_process_index = self.selected_process_index.saturating_sub(rows);
            },
            InputEvent::PageDown => {
                let rows = self.get_visible_rows();
                self.selected_process_index = self.selected_process_index.saturating_add(rows);
            },
            InputEvent::Home => {
                self.selected_process_index = 0;
            },
            InputEvent::End => {
                let process_count = self.filtered_count();
                self.selected_process_index = process_count.saturating_sub(1);
            },
            InputEvent::CycleSort => {
                self.current_sort = self.current_sort.next();
                self.sort_reverse = self.current_sort.default_reverse();
            },
            InputEvent::ClearFilter => {
                self.filter_text = String::new();
                self.input_handler.exit_filter_mode();
            },
            InputEvent::FilterChar(c) => {
                crate::text::push_char(&mut self.filter_text, c);
            },
            InputEvent::FilterBackspace => {
                let len = crate::text::char_count(self.filter_text.as_str());
                if len > 0 {
                    let kept = String::from_str(
                        self.filter_text.as_str().substring_char(0, len - 1),
                    );
                    proof {
                        assert(kept@ =~= self.filter_text@.drop_last());
                    }
                    self.filter_text = kept;
                }
            },
            InputEvent::ToggleTreeView => {
                self.tree_view = !self.tree_view;
            },
            _ => {},
        }
    }
}

/// The prompt that shows the filter text while it is typed.
pub open spec fn filter_prompt_drawn(area: Rect, filter: Seq<char>) -> Seq<Draw> {
    seq![Draw::MoveTo(area.x, area.y), Draw::Print("Filter: "@ + filter + "_"@)]
}

/// The headings as string slices.
pub fn column_names(columns: &Vec<String>) -> (names: Vec<&str>)
    ensures
        crate::layout::headings(names@) == texts(columns@),
{
    let mut names: Vec<&str> = Vec::new();
    let mut i: usize = 0;
    while i < columns.len()
        invariant
            i <= columns.len(),
            names.len() == i,
            forall|k: int| 0 <= k < i ==> (#[trigger] names[k])@ == columns[k]@,
        decreases columns.len() - i,
    {
        names.push(columns[i].as_str());
        i += 1;
    }
    proof {
        assert(crate::layout::headings(names@) =~= texts(columns@));
    }
    names
}

/// Appends the heading of a column that is switched on.
fn push_column(visible: &mut Vec<String>, enabled: bool, heading: &str)
    ensures
        texts(final(visible)@) == texts(old(visible)@) + optional_column(enabled, heading@),
{
    if enabled {
        visible.push(String::from_str(heading));
    }
    proof {
        assert(texts(visible@) =~= texts(old(visible)@) + optional_column(enabled, heading@));
    }
}

} // verus!
