//! Worker enrollment registry: the lifecycle facts of offers, credentials and workers, the
//! projection that validates them, and the decisions that extend them.

pub mod digest;
pub mod model;
pub mod project;
pub mod laws;
pub mod registry;
pub mod decide;
pub mod redeem;
pub mod report;
