//! Intent and navigation decisions for autonomous traders that fly between stations.
//!
//! The library holds the parts of a tick that are exact: entity handles with generations,
//! the intent state machine (idle or flying to a target), the idle-assignment rule and the
//! travel-control decision. The kinematics around them are computed by the host.

pub mod entities;
pub mod behaviour;
pub mod registry;
