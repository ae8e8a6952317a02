//! A pomodoro timer: a countdown clock and the phase controller that drives
//! focus and relax periods, with the settings and user-interface state around
//! them.
pub mod countdown;
pub mod settings;
pub mod pomodoro_timer;
pub mod duration_extension;
pub mod app;
