//! A styling and retained-state convenience layer for an immediate-mode GUI
//! toolkit: a declarative theme store that flattens named style overrides into
//! (control, property, value) triples, a style applier over an abstract sink,
//! and a registry of per-widget state slots with first-call-wins
//! materialization and frame-to-frame change detection.

pub mod sink;
pub mod theme;
pub mod ui;
