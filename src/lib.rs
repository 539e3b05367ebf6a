pub mod bridge;
pub mod laws;
pub mod naming;
pub mod planner;
pub mod registry;
