//! The verified core of a market charting terminal: study settings, alert rules
//! and their editing, trigger planning, sound decisions and feed framing.

pub mod adapter;
pub mod audio;
pub mod clock;
pub mod content;
pub mod firing;
pub mod footprint;
pub mod ids;
pub mod kline;
pub mod log;
pub mod pane;
pub mod rule_book;
pub mod rules;
pub mod streams;
pub mod study;
pub mod text;
pub mod triggers;
