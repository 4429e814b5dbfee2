//! The data side of the dashboard display: bar-chart scaling and coloring,
//! and the ui-selection state shared between the render and input tasks.

pub mod bar_chart;
pub mod cpu;
pub mod graph;
pub mod memory;
pub mod state;
pub mod util;
