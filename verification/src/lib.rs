//! Decision logic of a soft-grasping hand controller: the grasp state
//! machine of each finger, the feedback safety checks, the decoding of the
//! servo feedback registers, the configuration rules and the decisions of
//! the control node, each stated over plain values and proved.

pub mod config;
pub mod feedback;
pub mod node;
pub mod safety;
pub mod soft_grasp;
