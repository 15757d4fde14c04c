pub mod config;
pub mod error;
pub mod finder;
pub mod fuzzy;
pub mod graphics;
pub mod mode;
pub mod pager;
pub mod pane;
pub mod platform;
pub mod preview;
pub mod probe_report;
pub mod rank;
pub mod session;
pub mod text;
pub mod ui;
