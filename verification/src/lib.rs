//! Conversion of contact records into recurring calendar reminder events.
//!
//! The library consumes already-parsed contact properties and target years,
//! extracts a (possibly year-less) birthday date, generates one all-day
//! reminder event per target year, and serializes calendars to their textual
//! wire format.  All transformations are pure and verified; reading contact
//! files and writing calendar files is left to the surrounding application.

pub mod config;
pub mod dates;
pub mod errors;
pub mod extract;
pub mod generate;
pub mod numfmt;
pub mod props;
pub mod ser;
pub mod strutil;
