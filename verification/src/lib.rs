//! Firmware core for a portable embedded device: a cooperative task
//! scheduler, a fixed-capacity message bus, and per-task resource metrics,
//! together with register-level models of the board's clock, GPIO and UART
//! configuration and the host-side device-description tooling.

pub mod app;
pub mod bsp;
pub mod button;
pub mod clock;
pub mod channel;
pub mod console;
pub mod dispatch;
pub mod errors;
pub mod gpio;
pub mod fib;
pub mod led;
pub mod metrics;
pub mod metrics_task;
pub mod msg;
pub mod pllcfg;
pub mod queue;
pub mod regs;
pub mod stack;
pub mod svd;
pub mod tasks;
pub mod timebase;
pub mod uart;
