//! Record management for tutors and the topics they offer: partial-update
//! merging, ownership-scoped lookups, cascading deletion and error classes.
pub mod clock;
pub mod model;
pub mod errors;
pub mod merge;
pub mod rows;
pub mod outcome;
pub mod store;
pub mod laws;
