//! A verified simulation core for a MIDI-driven particle visualizer.
//!
//! Incoming MIDI byte frames are decoded into typed events; note events
//! spawn and release animated entities held in keyed registries, and
//! control-change events reshape a global modifier that every entity
//! consumes on each simulation tick. All geometry is carried in
//! fixed-point milli-units so that every state transition is checked
//! exactly; rendering, device I/O and the host clock live outside.

pub mod engine;
pub mod geom;
pub mod midi;
pub mod mapper;
pub mod modifier;
pub mod particles;
pub mod registry;
