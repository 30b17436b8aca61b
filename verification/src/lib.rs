//! The input-processing core of a mechanical-keyboard firmware: it turns
//! raw, per-key switch samples into a clean, ordered stream of HID-style
//! reports, with layered keymaps, two-key chords, one-key combos, and
//! tap/hold dual-purpose keys. Every component carries its behavior as a
//! specification, and the tick loop is proved to compose them exactly.
//!
//! Data flow per tick: raw samples -> `debouncer` -> events -> chord/combo
//! handlers in `handler` and `processor` -> per-key resolution against the
//! `action` grid -> `performer`, which owns the layer state machine and the
//! bounded report queue.

pub mod action;
pub mod debouncer;
pub mod event;
pub mod function;
pub mod handler;
pub mod keymap;
pub mod layers;
pub mod performer;
pub mod processor;
pub mod register;
pub mod report;
pub mod state;
