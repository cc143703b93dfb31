//! Confines the on-screen cursor to a single monitor's bounds in a
//! multi-monitor desktop, with user-driven temporary release and monitor
//! reassignment.
//!
//! The crate holds the monitor-geometry model, the monitor catalog, the
//! selection resolver, and the cursor-confinement state machine. The host
//! platform's display service (monitor enumeration, cursor queries, cursor
//! clipping, key state) lives outside the library; each tick the caller polls
//! it and hands the observations to [`confine::ConfinementState::step`],
//! which decides the clip commands to issue.

pub mod catalog;
pub mod confine;
pub mod geometry;
pub mod resolver;
