//! A wall clock for four daisy-chained 8x8 LED matrices: time-of-day
//! arithmetic, glyph rendering into a 32-column framebuffer, the button
//! auto-repeat state machine and the task-level decisions that tie them
//! together.
pub mod clock;
pub mod display;
pub mod font;
pub mod repeat;
pub mod tasks;
