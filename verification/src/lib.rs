//! Shift timeline management: a calendar of weekly shift assignments driven
//! by reusable weekly rules.
//!
//! The core is [`calendar::ShiftCalendarManager`], which records for every
//! absolute week in a planning horizon whether a rule-driven shift is active
//! (and at which rotation phase) or explicitly skipped. Appending is
//! gap-rejecting, overwrite-rejecting and idempotent under resubmission;
//! truncation rolls the timeline back from a given week; derivation turns a
//! sub-range of the timeline into concrete per-day staff assignments without
//! storing them.
//!
//! - [`week_status`] holds the per-week status and the ghost vocabulary the
//!   contracts share (active counts, phase consistency).
//! - [`calendar`] holds the manager and its append, apply, truncate and
//!   renumber operations.
//! - [`laws`] states and proves the timeline's guaranteed properties.
//! - [`rules`] models rule definitions, the staff roster and week
//!   resolution; [`derive`] walks a timeline slice and resolves it.
//! - [`catalog`] and [`config`] convert stored and file-shaped
//!   configurations into that model; [`dto`] shapes derived ranges for
//!   display; [`storage`] decodes stored rows and plans incremental
//!   appends.

use vstd::prelude::*;

pub mod calendar;
pub mod catalog;
pub mod config;
pub mod derive;
pub mod dto;
pub mod laws;
pub mod rules;
pub mod storage;
pub mod week_status;

verus! {

} // verus!
