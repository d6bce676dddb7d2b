//! Dimension-generic, derivative-order-generic application of Newtonian
//! forces and torques to a rigid body's kinematic state.

pub mod body;
pub mod force;
pub mod laws;
pub mod rat;
pub mod torque;
pub mod vector;
