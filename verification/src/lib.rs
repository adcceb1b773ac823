//! The core of a relaxed inverse-kinematics solver, verified with Verus.
//!
//! The solver poses inverse kinematics as the minimisation of a weighted
//! sum of smooth penalty terms. This crate holds what that takes besides
//! arithmetic: the solver's state and its history, the shape of the robot
//! and where the frame of a joint is found, the terms and the ready-made
//! objective sets, the order of work for a value or a gradient, the
//! settings file, and the layout of what a host hands over and gets back.
//!
//! Scalars are an abstract type `S` throughout: they are stored, copied
//! and laid out, never computed with. Forward kinematics, the losses and
//! the minimiser belong to the numeric layer that uses this crate.

pub mod file_utils;
pub mod frames;
pub mod geometry;
pub mod goals;
pub mod gradient;
pub mod joints;
pub mod layout;
pub mod objective;
pub mod objective_master;
pub mod settings;
pub mod text;
pub mod vars;
pub mod yaml;
