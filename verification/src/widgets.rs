//! The parts of the screen. Each widget appends its draw instructions to a
//! canvas and states exactly which ones.

pub mod bounds;
pub mod footer;
pub mod gauges;
pub mod help;
pub mod network;
pub mod process_table;
pub mod temperature;
pub mod top_bar;

pub use footer::Footer;
pub use gauges::{CpuGauges, Gauge, MemoryGauges};
pub use help::HelpOverlay;
pub use network::NetworkGauges;
pub use process_table::ProcessTable;
pub use temperature::TemperatureGauge;
pub use top_bar::TopBar;
