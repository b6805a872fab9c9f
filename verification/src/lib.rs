//! Planning for the consolidation of one file's extents on a copy-on-write
//! filesystem.
//!
//! The library decides; the caller performs. A [`plan::Consolidator`] hands out
//! one [`plan::Action`] at a time, is told how it went through a
//! [`plan::Event`], and answers with the next action or with the verdict of the
//! run. The order of the actions, the checks that gate the first mutation and
//! the classification of every failure are stated and proved here.
pub mod failure;
pub mod history;
pub mod plan;
pub mod platform;
pub mod report;
pub mod scratch;
pub mod target;
pub mod text;
