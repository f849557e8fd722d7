//! Allocation rules for a capped long-only portfolio whose weights are searched
//! by a global optimizer: when a candidate falls back to the uniform allocation,
//! how the cap-and-redistribute loop treats each entry and when it must give up,
//! when a projected allocation is accepted, and the shape the return statistics
//! must have.
pub mod projection;
pub mod statistics;
