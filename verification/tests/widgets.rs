use kacemon::canvas::Canvas;
use kacemon::model::{CpuCore, NetworkInfo, SystemInfo};
use kacemon::widgets::help::popup_of;
use kacemon::{
    Color, ColorScheme, CpuGauges, DrawOp, Fixed, Footer, Gauge, HelpOverlay, MemoryGauges,
    MemoryInfo, NetworkGauges, ProcessInfo, ProcessState, ProcessTable, Rect, TemperatureGauge,
    TemperatureInfo, Theme, TopBar,
};

fn dark() -> ColorScheme {
    ColorScheme::new(&Theme::Dark, false)
}

fn fixed(thousandths: i64) -> Fixed {
    Fixed::from_thousandths(thousandths)
}

fn print(text: &str) -> DrawOp {
    DrawOp::Print(text.to_string())
}

fn fg(color: Color) -> DrawOp {
    DrawOp::SetForegroundColor(color)
}

fn bg(color: Color) -> DrawOp {
    DrawOp::SetBackgroundColor(color)
}

#[test]
fn test_color_scheme_creation() {
    let scheme = ColorScheme::new(&Theme::Dark, false);
    assert_eq!(scheme.background, Color::Black);
    assert_eq!(scheme.foreground, Color::White);
    assert_eq!(scheme.accent, Color::Cyan);
    assert_eq!(scheme.table_selected, Color::Yellow);
    let light = ColorScheme::new(&Theme::Light, false);
    assert_eq!(light.background, Color::White);
    assert_eq!(light.error, Color::DarkRed);
    assert_eq!(light.table_header, Color::DarkBlue);
    let no_color_scheme = ColorScheme::new(&Theme::Dark, true);
    assert_eq!(no_color_scheme.background, Color::Reset);
    assert_eq!(no_color_scheme.error, Color::Reset);
    assert_eq!(no_color_scheme, ColorScheme::new(&Theme::Light, true));
}

#[test]
fn colors_follow_the_load_and_the_state() {
    let scheme = dark();
    assert_eq!(scheme.cpu_usage_color(fixed(90_001)), Color::Red);
    assert_eq!(scheme.cpu_usage_color(fixed(90_000)), Color::DarkYellow);
    assert_eq!(scheme.cpu_usage_color(fixed(70_001)), Color::DarkYellow);
    assert_eq!(scheme.cpu_usage_color(fixed(70_000)), Color::Green);
    assert_eq!(scheme.memory_usage_color(fixed(90_001)), Color::Red);
    assert_eq!(scheme.memory_usage_color(fixed(80_001)), Color::DarkYellow);
    assert_eq!(scheme.memory_usage_color(fixed(80_000)), Color::Green);
    assert_eq!(scheme.process_state_color(&ProcessState::Running), Color::Green);
    assert_eq!(scheme.process_state_color(&ProcessState::Sleeping), Color::DarkGrey);
    assert_eq!(scheme.process_state_color(&ProcessState::Waiting), Color::DarkYellow);
    assert_eq!(scheme.process_state_color(&ProcessState::Zombie), Color::Red);
    assert_eq!(scheme.process_state_color(&ProcessState::Stopped), Color::Red);
    assert_eq!(scheme.process_state_color(&ProcessState::Paging), Color::DarkYellow);
    assert_eq!(scheme.process_state_color(&ProcessState::Dead), Color::Red);
    assert_eq!(scheme.process_state_color(&ProcessState::Unknown), Color::DarkGrey);
}

#[test]
fn footer_fits_its_line() {
    let mut canvas = Canvas::new();
    Footer.render(&mut canvas, Rect::new(2, 23, 10, 1), &dark());
    assert_eq!(
        canvas.ops,
        vec![DrawOp::MoveTo(2, 23), fg(Color::DarkGrey), bg(Color::Black), print("q:quit ...")]
    );
    let mut canvas = Canvas::new();
    Footer.render(&mut canvas, Rect::new(0, 0, 2, 1), &dark());
    assert_eq!(canvas.ops[3], print(".."));
    let mut canvas = Canvas::new();
    Footer.render(&mut canvas, Rect::new(0, 0, 80, 0), &dark());
    assert!(canvas.ops.is_empty());
}

fn system() -> SystemInfo {
    SystemInfo {
        hostname: "box".to_string(),
        os_name: "Linux".to_string(),
        os_version: "6.1".to_string(),
        uptime: 93_784,
        boot_time: 0,
        load_avg_1: fixed(500),
        load_avg_5: fixed(1_250),
        load_avg_15: fixed(12_345),
    }
}

#[test]
fn top_bar_writes_host_uptime_load_and_time() {
    let mut canvas = Canvas::new();
    TopBar.render(&mut canvas, Rect::new(0, 0, 70, 1), &system(), 1_700_000_000, &dark());
    let line = "box | Linux 6.1 | Up: 1d 2h 3m | Load: 0.50 1.25 12.34 | 22:13:20";
    assert_eq!(
        canvas.ops,
        vec![
            DrawOp::MoveTo(0, 0),
            fg(Color::White),
            bg(Color::Black),
            DrawOp::Print(format!("{:<70}", line)),
        ]
    );
    let mut canvas = Canvas::new();
    TopBar.render(&mut canvas, Rect::new(0, 0, 20, 1), &system(), 59, &dark());
    assert_eq!(canvas.ops[3], print("box | Linux 6.1 |..."));
    let mut canvas = Canvas::new();
    TopBar.render(&mut canvas, Rect::new(0, 0, 20, 0), &system(), 59, &dark());
    assert!(canvas.ops.is_empty());
}

#[test]
fn top_bar_counts_the_time_of_day() {
    let mut canvas = Canvas::new();
    let mut quiet = system();
    quiet.uptime = 59;
    quiet.load_avg_15 = fixed(0);
    TopBar.render(&mut canvas, Rect::new(0, 0, 200, 1), &quiet, 86_399, &dark());
    let line = "box | Linux 6.1 | Up: 0d 0h 0m | Load: 0.50 1.25 0.00 | 23:59:59";
    assert_eq!(canvas.ops[3], DrawOp::Print(format!("{:<200}", line)));
}

#[test]
fn gauge_fills_its_share() {
    let mut canvas = Canvas::new();
    Gauge.render(&mut canvas, Rect::new(1, 2, 12, 3), "CPU", fixed(50_000), "4 cores", &dark());
    let mut expected = vec![
        DrawOp::MoveTo(1, 2),
        fg(Color::Cyan),
        bg(Color::Black),
        print("CPU         "),
        DrawOp::MoveTo(1, 3),
        fg(Color::White),
        print("["),
        bg(Color::Blue),
        fg(Color::Black),
    ];
    expected.extend(vec![print("█"); 5]);
    expected.extend(vec![bg(Color::DarkGrey), fg(Color::DarkGrey)]);
    expected.extend(vec![print("░"); 5]);
    expected.extend(vec![
        bg(Color::Black),
        fg(Color::White),
        print("]"),
        DrawOp::MoveTo(1, 4),
        fg(Color::DarkGrey),
        print("50.0% - 4..."),
    ]);
    assert_eq!(canvas.ops, expected);
}

fn printed(canvas: &Canvas, glyph: &str) -> usize {
    canvas.ops.iter().filter(|op| **op == print(glyph)).count()
}

#[test]
fn gauge_holds_the_percentage_between_nothing_and_all() {
    let area = Rect::new(0, 0, 22, 3);
    let mut canvas = Canvas::new();
    Gauge.render(&mut canvas, area, "x", fixed(250_000), "", &dark());
    assert_eq!((printed(&canvas, "█"), printed(&canvas, "░")), (20, 0));
    assert_eq!(canvas.ops[canvas.len() - 1], print("100.0% - "));
    let mut canvas = Canvas::new();
    Gauge.render(&mut canvas, area, "x", fixed(-5_000), "", &dark());
    assert_eq!((printed(&canvas, "█"), printed(&canvas, "░")), (0, 20));
    assert_eq!(canvas.ops[canvas.len() - 1], print("0.0% - "));
    let mut canvas = Canvas::new();
    Gauge.render(&mut canvas, area, "x", fixed(99_999), "", &dark());
    assert_eq!((printed(&canvas, "█"), printed(&canvas, "░")), (19, 1));
    assert_eq!(canvas.ops[canvas.len() - 1], print("100.0% - "));
    let mut canvas = Canvas::new();
    Gauge.render(&mut canvas, area, "x", fixed(33_349), "used", &dark());
    assert_eq!((printed(&canvas, "█"), printed(&canvas, "░")), (6, 14));
    assert_eq!(canvas.ops[canvas.len() - 1], print("33.3% - used"));
}

#[test]
fn gauge_needs_two_rows_and_three_columns() {
    for area in [Rect::new(0, 0, 40, 1), Rect::new(0, 0, 2, 5), Rect::new(0, 0, 0, 0)] {
        let mut canvas = Canvas::new();
        Gauge.render(&mut canvas, area, "CPU", fixed(50_000), "x", &dark());
        assert!(canvas.ops.is_empty());
    }
    let mut canvas = Canvas::new();
    Gauge.render(&mut canvas, Rect::new(0, 0, 3, 2), "CPU", fixed(50_000), "x", &dark());
    assert_eq!(canvas.len(), 15);
    assert_eq!((printed(&canvas, "█"), printed(&canvas, "░")), (0, 1));
}

fn cpu_core(id: usize, usage: i64) -> CpuCore {
    CpuCore { id, name: format!("cpu{}", id), usage_percent: fixed(usage), frequency: 1000 }
}

#[test]
fn cpu_gauges_show_the_mean_and_the_cores() {
    let cores = vec![cpu_core(0, 10_000), cpu_core(1, 95_500), cpu_core(2, 75_000), cpu_core(3, 0)];
    let mut canvas = Canvas::new();
    CpuGauges.render(&mut canvas, Rect::new(0, 1, 24, 5), &cores, &dark());
    let mut gauge = Canvas::new();
    Gauge.render(&mut gauge, Rect::new(0, 1, 24, 5), "CPU", fixed(45_125), "4 cores", &dark());
    assert_eq!(&canvas.ops[..gauge.len()], &gauge.ops[..]);
    assert_eq!(gauge.ops[gauge.len() - 1], print("45.1% - 4 cores"));
    assert_eq!(
        &canvas.ops[gauge.len()..],
        &[
            DrawOp::MoveTo(0, 4),
            fg(Color::DarkGrey),
            fg(Color::Green),
            print("C0: 10% "),
            fg(Color::DarkGrey),
            fg(Color::Red),
            print("C1: 96% "),
            fg(Color::DarkGrey),
            fg(Color::DarkYellow),
            print("C2: 75% "),
            fg(Color::DarkGrey),
            DrawOp::MoveTo(0, 5),
            fg(Color::Green),
            print("C3:  0% "),
            fg(Color::DarkGrey),
        ]
    );
}

#[test]
fn cpu_gauges_without_cores_or_rows_draw_nothing() {
    let mut canvas = Canvas::new();
    CpuGauges.render(&mut canvas, Rect::new(0, 1, 24, 5), &Vec::new(), &dark());
    assert!(canvas.ops.is_empty());
    CpuGauges.render(&mut canvas, Rect::new(0, 1, 24, 1), &vec![cpu_core(0, 1)], &dark());
    assert!(canvas.ops.is_empty());
    let many: Vec<CpuCore> = (0..17).map(|i| cpu_core(i, 1_000)).collect();
    let mut gauge = Canvas::new();
    Gauge.render(&mut gauge, Rect::new(0, 1, 24, 5), "CPU", fixed(1_000), "17 cores", &dark());
    CpuGauges.render(&mut canvas, Rect::new(0, 1, 24, 5), &many, &dark());
    assert_eq!(canvas.ops, gauge.ops);
    let mut narrow = Canvas::new();
    CpuGauges.render(&mut narrow, Rect::new(0, 1, 7, 5), &vec![cpu_core(0, 1), cpu_core(1, 1)], &dark());
    assert_eq!(narrow.ops.iter().filter(|op| matches!(op, DrawOp::MoveTo(_, _))).count(), 4);
}

#[test]
fn memory_gauge_shows_what_is_in_use() {
    let memory = MemoryInfo {
        total: 8 * 1024 * 1024 * 1024,
        used: 2 * 1024 * 1024 * 1024,
        available: 0,
        free: 0,
        buffers: 0,
        cached: 0,
        swap_total: 1024,
        swap_used: 512,
        swap_free: 512,
    };
    let area = Rect::new(40, 1, 40, 4);
    let mut canvas = Canvas::new();
    MemoryGauges.render(&mut canvas, area, &memory, &dark());
    let mut gauge = Canvas::new();
    Gauge.render(&mut gauge, area, "Memory", fixed(25_000), "2.0GB / 8.0GB", &dark());
    assert_eq!(canvas.ops, gauge.ops);
    assert_eq!(canvas.ops[canvas.len() - 1], print("25.0% - 2.0GB / 8.0GB"));
    let empty = MemoryInfo { total: 0, used: 5, ..memory };
    let mut canvas = Canvas::new();
    MemoryGauges.render(&mut canvas, area, &empty, &dark());
    assert_eq!(canvas.ops[canvas.len() - 1], print("0.0% - 5B / 0B"));
    let mut canvas = Canvas::new();
    MemoryGauges.render(&mut canvas, Rect::new(0, 0, 40, 1), &memory, &dark());
    assert!(canvas.ops.is_empty());
}

fn process(pid: u32, name: &str, cpu: i64, state: ProcessState) -> ProcessInfo {
    ProcessInfo {
        pid,
        name: name.to_string(),
        cmd: Vec::new(),
        user: "root".to_string(),
        cpu_percent: fixed(cpu),
        memory_percent: fixed(50_001),
        memory_rss: 1536,
        memory_vsz: 1024 * 1024,
        threads: 3,
        state,
        start_time: 1_000,
        parent_pid: None,
        cgroup: None,
    }
}

#[test]
fn process_table_draws_the_heading_and_the_window() {
    let processes = vec![
        process(1, "init", 500, ProcessState::Sleeping),
        process(22, "a-process-with-a-long-name", 75_260, ProcessState::Running),
        process(333, "third", 0, ProcessState::Zombie),
    ];
    let columns = ["PID", "NAME", "CPU%", "STATE"];
    let area = Rect::new(0, 5, 40, 3);
    let mut canvas = Canvas::new();
    ProcessTable.render(&mut canvas, area, &processes, &columns, 1, 1, 1_075, &dark());
    // preferred 8 + 20 + 6 + 6 = 40: every column keeps its width
    assert_eq!(
        canvas.ops,
        vec![
            DrawOp::MoveTo(0, 5),
            fg(Color::Cyan),
            bg(Color::Black),
            DrawOp::MoveTo(0, 5),
            print("PID     "),
            DrawOp::MoveTo(8, 5),
            print("NAME                "),
            DrawOp::MoveTo(28, 5),
            print("CPU%  "),
            DrawOp::MoveTo(34, 5),
            print("STATE "),
            bg(Color::Yellow),
            fg(Color::Black),
            DrawOp::MoveTo(0, 6),
            print("22      "),
            DrawOp::MoveTo(8, 6),
            print("a-process-with-a-..."),
            DrawOp::MoveTo(28, 6),
            print(" 75.3 "),
            DrawOp::MoveTo(34, 6),
            print("Run..."),
            bg(Color::DarkGrey),
            fg(Color::White),
            DrawOp::MoveTo(0, 7),
            print("333     "),
            DrawOp::MoveTo(8, 7),
            print("third               "),
            DrawOp::MoveTo(28, 7),
            print("  0.0 "),
            DrawOp::MoveTo(34, 7),
            fg(Color::Red),
            print("Zombie"),
            bg(Color::Black),
            fg(Color::White),
        ]
    );
}

#[test]
fn process_table_writes_every_column() {
    let processes = vec![process(7, "sshd", 50_001, ProcessState::Waiting)];
    let columns = ["USER", "MEM%", "RSS", "VSZ", "THR", "TIME", "OTHER"];
    let mut canvas = Canvas::new();
    ProcessTable.render(&mut canvas, Rect::new(0, 0, 200, 2), &processes, &columns, 9, 0, 4_675, &dark());
    let texts: Vec<String> = canvas
        .ops
        .iter()
        .filter_map(|op| match op {
            DrawOp::Print(text) => Some(text.trim_end().to_string()),
            _ => None,
        })
        .collect();
    assert_eq!(
        texts,
        vec![
            "USER", "MEM%", "RSS", "VSZ", "THR", "TIME", "OTHER", "root", " 50.0", "1.5KB",
            "1.0MB", "3", "61:15", "",
        ]
    );
    assert_eq!(canvas.ops.iter().filter(|op| **op == fg(Color::DarkYellow)).count(), 1);
    let mut canvas = Canvas::new();
    ProcessTable.render(&mut canvas, Rect::new(0, 0, 200, 2), &processes, &["TIME"], 0, 0, 5, &dark());
    assert!(canvas.ops.contains(&print("00:00   ")));
    let mut canvas = Canvas::new();
    ProcessTable.render(&mut canvas, Rect::new(0, 0, 200, 2), &processes, &["CPU%"], 3, 0, 5, &dark());
    assert_eq!(canvas.ops[canvas.len() - 4], fg(Color::DarkYellow));
    assert_eq!(canvas.ops[canvas.len() - 3], print(" 50.0 "));
}

#[test]
fn process_table_with_nothing_to_show() {
    let processes = vec![process(7, "sshd", 0, ProcessState::Running)];
    let mut canvas = Canvas::new();
    ProcessTable.render(&mut canvas, Rect::new(0, 0, 80, 1), &processes, &["PID"], 0, 0, 0, &dark());
    assert!(canvas.ops.is_empty());
    ProcessTable.render(&mut canvas, Rect::new(0, 0, 80, 5), &processes, &["PID"], 0, 1, 0, &dark());
    assert_eq!(canvas.len(), 7);
    let mut canvas = Canvas::new();
    ProcessTable.render(&mut canvas, Rect::new(0, 0, 80, 5), &processes, &["PID"], 0, usize::MAX, 0, &dark());
    assert_eq!(canvas.len(), 7);
    let mut canvas = Canvas::new();
    let none: [&str; 0] = [];
    ProcessTable.render(&mut canvas, Rect::new(0, 0, 80, 5), &processes, &none, 0, 0, 0, &dark());
    assert_eq!(canvas.len(), 7);
    let mut canvas = Canvas::new();
    ProcessTable.render(&mut canvas, Rect::new(0, 0, 0, 5), &processes, &["PID"], 0, 0, 0, &dark());
    assert_eq!(canvas.len(), 7);
}

fn network(name: &str, rx_delta: u64, tx_delta: u64) -> NetworkInfo {
    NetworkInfo {
        interface_name: name.to_string(),
        rx_bytes: 1,
        tx_bytes: 1,
        rx_bytes_delta: rx_delta,
        tx_bytes_delta: tx_delta,
        rx_packets: 1,
        tx_packets: 1,
        rx_errors: 0,
        tx_errors: 0,
    }
}

#[test]
fn network_panel_without_interfaces() {
    let mut canvas = Canvas::new();
    NetworkGauges.render(&mut canvas, Rect::new(0, 17, 40, 3), &Vec::new(), &dark());
    assert_eq!(
        canvas.ops,
        vec![
            DrawOp::MoveTo(0, 17),
            fg(Color::Cyan),
            bg(Color::Black),
            fg(Color::DarkGrey),
            print("○○○"),
            fg(Color::Cyan),
            print(" NETWORK (0 interfaces)"),
            DrawOp::Print(" ".repeat(14)),
            DrawOp::MoveTo(0, 18),
            fg(Color::DarkGrey),
            DrawOp::Print("─".repeat(40)),
            DrawOp::MoveTo(0, 19),
            fg(Color::Cyan),
            fg(Color::Green),
            print("⬇ "),
            DrawOp::Print("░".repeat(15)),
            print(" 0B/s"),
            DrawOp::Print(" ".repeat(18)),
        ]
    );
    let mut canvas = Canvas::new();
    NetworkGauges.render(&mut canvas, Rect::new(0, 17, 40, 1), &Vec::new(), &dark());
    assert!(canvas.ops.is_empty());
    let mut canvas = Canvas::new();
    NetworkGauges.render(&mut canvas, Rect::new(0, 17, 40, 2), &Vec::new(), &dark());
    assert_eq!(canvas.len(), 11);
}

#[test]
fn network_panel_cuts_a_title_that_does_not_fit() {
    let mut canvas = Canvas::new();
    NetworkGauges.render(&mut canvas, Rect::new(0, 0, 20, 2), &Vec::new(), &dark());
    assert_eq!(canvas.ops[6], print(" NETWORK (0 i..."));
    let mut canvas = Canvas::new();
    NetworkGauges.render(&mut canvas, Rect::new(0, 0, 26, 2), &Vec::new(), &dark());
    assert_eq!(canvas.ops[6], print(" NETWORK (0 interfa..."));
    let mut canvas = Canvas::new();
    NetworkGauges.render(&mut canvas, Rect::new(0, 0, 27, 2), &Vec::new(), &dark());
    assert_eq!(canvas.ops[6], print(" NETWORK (0 interfaces)"));
    assert_eq!(canvas.ops[7], print(" "));
    let mut canvas = Canvas::new();
    NetworkGauges.render(&mut canvas, Rect::new(0, 0, 3, 2), &Vec::new(), &dark());
    assert_eq!(canvas.ops[6], print("..."));
    assert_eq!(canvas.ops[9], print("───"));
    let mut canvas = Canvas::new();
    NetworkGauges.render(&mut canvas, Rect::new(0, 0, 200, 2), &Vec::new(), &dark());
    assert_eq!(canvas.ops[10], DrawOp::Print("─".repeat(80)));
}

#[test]
fn network_panel_lists_active_interfaces_first() {
    let networks = vec![
        network("wlan0", 0, 0),
        network("eth0", 2048, 0),
        network("docker0", 0, 0),
        network("enp3s0", 150_000, 20_000_000),
    ];
    let mut canvas = Canvas::new();
    NetworkGauges.render(&mut canvas, Rect::new(0, 0, 60, 6), &networks, &dark());
    // totals: 152048 down, 20000000 up
    assert_eq!(canvas.ops[3], fg(Color::Red));
    assert_eq!(canvas.ops[4], print("●●●"));
    assert_eq!(canvas.ops[6], print(" NETWORK (4 interfaces)"));
    let totals = &canvas.ops[11..24];
    assert_eq!(
        totals,
        &[
            DrawOp::MoveTo(0, 2),
            fg(Color::Cyan),
            fg(Color::Green),
            print("⬇ "),
            DrawOp::Print("░".repeat(15)),
            print(" 148.5KB/s"),
            print("   "),
            fg(Color::DarkYellow),
            print("⬆ "),
            DrawOp::Print("▓".repeat(15)),
            print(" 19.1MB/s"),
            DrawOp::MoveTo(0, 3),
            fg(Color::Red),
        ]
    );
    let rows = &canvas.ops[22..];
    let names: Vec<&DrawOp> = rows
        .iter()
        .filter(|op| matches!(op, DrawOp::Print(text) if text.len() == 8 && text.ends_with(' ')))
        .collect();
    assert_eq!(names, vec![&print("enp3s0  "), &print("eth0    "), &print("docker0 ")]);
    let first_row = &rows[..19];
    assert_eq!(
        first_row,
        &[
            DrawOp::MoveTo(0, 3),
            fg(Color::Red),
            print("◉"),
            fg(Color::Green),
            print("enp3s0  "),
            fg(Color::Green),
            print(" ⬇"),
            print("█"),
            fg(Color::DarkGrey),
            DrawOp::Print("▁".repeat(7)),
            fg(Color::DarkYellow),
            print(" ⬆"),
            DrawOp::Print("█".repeat(8)),
            fg(Color::DarkGrey),
            print(""),
            fg(Color::White),
            print(" 146.5KB/19.1MB"),
            DrawOp::Print(" ".repeat(16)),
            DrawOp::MoveTo(0, 4),
        ]
    );
    let last_row = &rows[rows.len() - 12..];
    assert_eq!(
        last_row,
        &[
            DrawOp::MoveTo(0, 5),
            fg(Color::DarkGrey),
            print("○"),
            fg(Color::DarkGrey),
            print("docker0 "),
            fg(Color::DarkGrey),
            print(" ⬇"),
            DrawOp::Print("▁".repeat(8)),
            print(" ⬆"),
            DrawOp::Print("▁".repeat(8)),
            print(" [idle]"),
            DrawOp::Print(" ".repeat(24)),
        ]
    );
}

fn sensor(label: &str, temperature: i64, critical: Option<i64>, max: Option<i64>) -> TemperatureInfo {
    TemperatureInfo {
        label: label.to_string(),
        temperature: fixed(temperature),
        critical: critical.map(fixed),
        max: max.map(fixed),
    }
}

#[test]
fn temperature_panel_gauges_the_hottest_sensor() {
    let sensors = vec![
        sensor("cpu-package-0", 50_000, Some(100_000), None),
        sensor("gpu", 70_000, None, Some(90_000)),
        sensor("ssd", 70_000, Some(70_000), None),
    ];
    let mut canvas = Canvas::new();
    TemperatureGauge.render(&mut canvas, Rect::new(40, 17, 40, 7), &sensors, &dark());
    assert_eq!(
        &canvas.ops[..10],
        &[
            DrawOp::MoveTo(40, 17),
            bg(Color::Black),
            fg(Color::DarkYellow),
            DrawOp::Print(format!("{:<40}", "🌡️ TEMPERATURE (158°F)")),
            DrawOp::MoveTo(40, 18),
            fg(Color::DarkGrey),
            DrawOp::Print("─".repeat(40)),
            DrawOp::MoveTo(40, 19),
            fg(Color::White),
            print("┌"),
        ]
    );
    // the last of the hottest sensors counts: the ssd at its critical temperature
    assert_eq!((printed(&canvas, "█"), printed(&canvas, "░")), (30, 0));
    let tail = &canvas.ops[canvas.len() - 12..];
    assert_eq!(
        tail,
        &[
            fg(Color::White),
            print("┐"),
            DrawOp::MoveTo(40, 20),
            fg(Color::White),
            DrawOp::MoveTo(54, 20),
            print("158°F (100%)"),
            DrawOp::MoveTo(40, 21),
            fg(Color::DarkGrey),
            DrawOp::Print(format!("{:<40}", "cpu-pack: 122°F")),
            DrawOp::MoveTo(40, 22),
            fg(Color::DarkYellow),
            DrawOp::Print(format!("{:<40}", "gpu: 158°F")),
        ]
    );
}

#[test]
fn temperature_panel_colours_the_zones_of_the_gauge() {
    let sensors = vec![sensor("cpu", 45_000, Some(90_000), None)];
    let mut canvas = Canvas::new();
    TemperatureGauge.render(&mut canvas, Rect::new(0, 0, 12, 4), &sensors, &dark());
    // ten cells, five of them full
    assert_eq!(canvas.ops[2], fg(Color::Cyan));
    assert_eq!(canvas.ops[3], print("♨️ TEMPER..."));
    assert_eq!(
        &canvas.ops[10..],
        &[
            fg(Color::Green),
            print("█"),
            fg(Color::Green),
            print("█"),
            fg(Color::Green),
            print("█"),
            fg(Color::Green),
            print("█"),
            fg(Color::Cyan),
            print("█"),
            fg(Color::Cyan),
            fg(Color::DarkGrey),
            print("░"),
            fg(Color::DarkYellow),
            fg(Color::DarkGrey),
            print("░"),
            fg(Color::DarkYellow),
            fg(Color::DarkGrey),
            print("░"),
            fg(Color::Red),
            fg(Color::DarkGrey),
            print("░"),
            fg(Color::Red),
            fg(Color::DarkGrey),
            print("░"),
            fg(Color::White),
            print("┐"),
        ]
    );
}

#[test]
fn temperature_panel_without_a_gauge_shows_a_note() {
    let mut canvas = Canvas::new();
    TemperatureGauge.render(&mut canvas, Rect::new(0, 0, 41, 4), &Vec::new(), &dark());
    assert_eq!(
        canvas.ops,
        vec![
            DrawOp::MoveTo(0, 0),
            bg(Color::Black),
            fg(Color::DarkGrey),
            DrawOp::Print(format!("{:<41}", "🌡️ TEMPERATURE (No sensors)")),
            DrawOp::MoveTo(0, 1),
            fg(Color::DarkGrey),
            DrawOp::Print("─".repeat(41)),
            DrawOp::MoveTo(0, 2),
            fg(Color::DarkGrey),
            DrawOp::MoveTo(5, 2),
            print("No temperature sensors detected"),
        ]
    );
    let sensors = vec![sensor("cpu", 20_000, None, None)];
    let mut canvas = Canvas::new();
    TemperatureGauge.render(&mut canvas, Rect::new(0, 0, 20, 3), &sensors, &dark());
    assert_eq!(canvas.ops[2], fg(Color::Green));
    assert_eq!(canvas.ops[3], print("❄️ TEMPERATURE (6..."));
    assert_eq!(canvas.ops[9], DrawOp::MoveTo(0, 2));
    assert_eq!(canvas.ops[10], print("No temperature sensors detected"));
    let mut canvas = Canvas::new();
    TemperatureGauge.render(&mut canvas, Rect::new(0, 0, 20, 2), &sensors, &dark());
    assert_eq!(canvas.len(), 7);
    let mut canvas = Canvas::new();
    TemperatureGauge.render(&mut canvas, Rect::new(0, 0, 20, 1), &sensors, &dark());
    assert!(canvas.ops.is_empty());
}

#[test]
fn temperatures_are_shown_in_fahrenheit() {
    for (celsius, shown) in [
        (0, "32"),
        (100_000, "212"),
        (-40_000, "-40"),
        (37_000, "99"),
        (36_944, "98"),
        (36_945, "99"),
        (-17_500, "0"),
        (-17_778, "-0"),
        (-18_056, "-1"),
        (278, "33"),
        (2_500, "36"),
        (7_500, "46"),
        (-18_334, "-1"),
        (-18_611, "-1"),
        (-18_612, "-2"),
    ] {
        let sensors = vec![sensor("x", celsius, None, None), sensor("y", celsius, None, None)];
        let mut canvas = Canvas::new();
        TemperatureGauge.render(&mut canvas, Rect::new(0, 0, 60, 8), &sensors, &dark());
        assert_eq!(
            canvas.ops[canvas.len() - 1],
            DrawOp::Print(format!("{:<60}", format!("y: {}°F", shown))),
            "{}",
            celsius
        );
    }
}

#[test]
fn help_overlay_is_centred_and_bordered() {
    assert_eq!(popup_of(Rect::new(0, 0, 80, 24)), Rect::new(10, 2, 60, 20));
    assert_eq!(popup_of(Rect::new(0, 0, 200, 100)), Rect::new(70, 40, 60, 20));
    assert_eq!(popup_of(Rect::new(0, 0, 30, 10)), Rect::new(2, 2, 26, 6));
    assert_eq!(popup_of(Rect::new(0, 0, 3, 2)), Rect::new(1, 1, 0, 0));
    let mut canvas = Canvas::new();
    HelpOverlay.render(&mut canvas, Rect::new(0, 0, 80, 24), &dark());
    // 20 blanked rows, the border with 18 side rows, 18 lines, the hint
    assert_eq!(canvas.len(), 20 * 4 + (6 + 18 * 4 + 4) + 18 * 3 + 3);
    assert_eq!(
        &canvas.ops[..4],
        &[
            DrawOp::MoveTo(10, 2),
            bg(Color::Black),
            fg(Color::White),
            DrawOp::Print(" ".repeat(60)),
        ]
    );
    assert_eq!(
        &canvas.ops[80..86],
        &[
            fg(Color::DarkGrey),
            bg(Color::Black),
            DrawOp::MoveTo(10, 2),
            print("┌"),
            DrawOp::Print("─".repeat(58)),
            print("┐"),
        ]
    );
    assert_eq!(
        &canvas.ops[86..90],
        &[DrawOp::MoveTo(10, 3), print("│"), DrawOp::MoveTo(69, 3), print("│")]
    );
    assert_eq!(
        &canvas.ops[158..162],
        &[
            DrawOp::MoveTo(10, 21),
            print("└"),
            DrawOp::Print("─".repeat(58)),
            print("┘"),
        ]
    );
    assert_eq!(
        &canvas.ops[162..171],
        &[
            DrawOp::MoveTo(11, 3),
            fg(Color::Cyan),
            print("                    SRMON HELP"),
            DrawOp::MoveTo(11, 4),
            fg(Color::White),
            print(""),
            DrawOp::MoveTo(11, 5),
            fg(Color::Cyan),
            print("Navigation:"),
        ]
    );
    assert_eq!(
        &canvas.ops[canvas.len() - 6..],
        &[
            DrawOp::MoveTo(11, 20),
            fg(Color::White),
            print("  t                Toggle tree view"),
            DrawOp::MoveTo(50, 21),
            fg(Color::DarkGrey),
            print("Press ? to close"),
        ]
    );
}

#[test]
fn help_overlay_degrades_on_small_screens() {
    let mut canvas = Canvas::new();
    HelpOverlay.render(&mut canvas, Rect::new(0, 0, 30, 10), &dark());
    assert!(canvas.ops.contains(&print("  ↑/k, ↓/j         Move ")));
    assert!(canvas.ops.contains(&DrawOp::MoveTo(8, 7)));
    let mut canvas = Canvas::new();
    HelpOverlay.render(&mut canvas, Rect::new(0, 0, 3, 2), &dark());
    assert_eq!(
        canvas.ops,
        vec![
            fg(Color::DarkGrey),
            bg(Color::Black),
            DrawOp::MoveTo(1, 1),
            print("┌"),
            print(""),
            print("┐"),
            DrawOp::MoveTo(1, 0),
            print("└"),
            print(""),
            print("┘"),
        ]
    );
    let mut canvas = Canvas::new();
    HelpOverlay.render(&mut canvas, Rect::new(0, 0, 0, 0), &dark());
    assert_eq!(canvas.len(), 10);
}
