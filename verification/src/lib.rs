//! State and screen of a terminal monitor for Apple silicon machines.

pub mod app;
pub mod battery;
pub mod battery_laws;
pub mod charge_limit;
pub mod charge_limit_laws;
pub mod config;
pub mod cores;
pub mod draw;
pub mod event;
pub mod geometry;
pub mod history;
pub mod metrics;
pub mod render;
pub mod render_laws;
pub mod screen;
pub mod screen_laws;
pub mod store_laws;
pub mod stores;
pub mod style;
pub mod text;
pub mod text_laws;
pub mod timer;
pub mod timer_laws;
pub mod units;
