//! Timing core of a terminal metronome: tempo arithmetic, the boundary that
//! admits user-typed tempo values, the pulse scheduler that decides when a
//! click fires and how the beat and bar counters move, and the selectable
//! menus and screens that the terminal front end drives.

pub mod engine;
pub mod input;
pub mod menu;
pub mod screens;
pub mod tempo;
