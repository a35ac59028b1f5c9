//! Turns Bugzilla bugs and Jira issues into one ticket model and checks each
//! ticket's readiness for a release-notes document.

pub mod config;
pub mod extra_fields;
pub mod extraction;
pub mod field_value;
pub mod pattern;
pub mod record;
pub mod status_report;
pub mod tally;
pub mod text;
pub mod ticket_abstraction;
