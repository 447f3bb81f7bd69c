//! The exact core of a closed-form gravity forward model.
//!
//! A model is a set of bodies with a density contrast; what is asked of it is
//! one of nine quantities, a component of the gravity vector or of the
//! symmetric gradient tensor, at a list of points. The field of a
//! rectangular prism is a signed sum over its eight corners, a rotated prism
//! is evaluated in its own frame, and the contributions of the bodies are
//! added and then scaled once for display.
//!
//! This crate holds what is exact in that: the numbering of the corners and
//! their signs, the order of the sum, the layout of the rotation matrices,
//! the choice of a component and of its scaling, the order of the sum over
//! the bodies, the projection onto a plot plane, and the bookkeeping of the
//! objects of a model. Coordinates and field values are carried in types
//! that the caller chooses; the crate arranges them and hands them to the
//! caller's arithmetic, and never computes with them itself.

pub mod axis;
pub mod cuboid;
pub mod gravity_objects;
pub mod key;
pub mod model;
pub mod plot;
pub mod rotation;
