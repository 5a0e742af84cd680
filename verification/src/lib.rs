pub mod history;
pub mod metrics;
pub mod app;
pub mod text;
pub mod ui;
pub mod collector;
