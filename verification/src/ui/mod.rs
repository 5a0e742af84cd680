pub mod theme;
pub mod widgets;
pub mod gpu_panel;
pub mod mem_panel;
pub mod cpu_panel;
pub mod process_panel;
