pub mod display;
pub mod dispatch;
pub mod encoder;
pub mod ipc;
pub mod leds;
pub mod hmi_loop;
pub mod display_state;
pub mod com_loop;
pub mod foc_loop;
