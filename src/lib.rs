//! Population statistics for the U.S. states and the District of Columbia:
//! a fixed table of records, the derived figures (density, change since the
//! base year, the national total) and the text report built from them.
//!
//! Land areas and median ages are held as fixed-point integers (hundredths of
//! a square unit, tenths of a year), so every figure of the report is computed
//! exactly and rounded to one decimal place, halves away from zero.
use vstd::prelude::*;

pub mod dataset;
pub mod decimal;
pub mod record;
pub mod report;
pub mod text;
