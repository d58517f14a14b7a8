//! Verified core of an interactive candlestick chart engine: tab registry,
//! drawing board with undo/redo history, drawing-tool rules, time-axis search,
//! view windowing, indicator configuration and path assembly.

pub mod board;
pub mod drawing;
pub mod history;
pub mod ids;
pub mod indicator;
pub mod interval;
pub mod path;
pub mod series;
pub mod tabs;
