pub mod button_leds;
pub mod ring;
pub mod types;
