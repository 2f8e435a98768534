//! Verified core of a terminal renderer: the DOM and its commands, style
//! values, cell frames, clipping, borders, selection, the terminal output
//! that draws frames, line-break planning, input decisions and event queues.

pub mod style;
pub mod clip;
pub mod border;
pub mod frame;
pub mod text;
pub mod native_event;
pub mod notification;
pub mod schedule;
pub mod input;
pub mod line_break;
pub mod style_property;
pub mod api;
pub mod geometry;
pub mod composite;
pub mod frame_output;
pub mod style_value;
pub mod style_keyword;
pub mod transition_value;
pub mod style_record;
pub mod engine;
pub mod terminal_output;
