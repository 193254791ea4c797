//! System resource monitor: the snapshot pipeline, the process view and the
//! screen layout, with their contracts.
//!
//! Readings come in as plain values, draw instructions go out as plain
//! values; what lies between is verified.

pub mod app;
pub mod canvas;
pub mod colors;
pub mod config;
pub mod draw;
pub mod error;
pub mod input;
pub mod layout;
pub mod metrics;
pub mod model;
pub mod numbers;
pub mod order;
pub mod platform;
pub mod process_view;
pub mod text;
pub mod units;
pub mod widgets;

pub use app::App;
pub use canvas::{Canvas, DrawOp};
pub use colors::{Color, ColorScheme};
pub use config::{CliConfig, Config};
pub use draw::{DrawState, Drawer};
pub use error::CoreError;
pub use input::{InputEvent, InputHandler};
pub use layout::{GaugesLayout, Layout, MainLayout, Rect};
pub use metrics::{MetricsCollector, TemperatureStatus};
pub use model::{
    CpuCore, DiskInfo, MemoryInfo, NetworkInfo, ProcessColumns, ProcessInfo, ProcessState,
    SortKey, SystemInfo, SystemSnapshot, TemperatureInfo, Theme,
};
pub use numbers::Fixed;
pub use platform::PlatformProvider;
pub use units::{format_bytes, format_rate};
pub use widgets::{
    CpuGauges, Footer, Gauge, HelpOverlay, MemoryGauges, NetworkGauges, ProcessTable,
    TemperatureGauge, TopBar,
};
