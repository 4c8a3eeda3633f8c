//! Verified core of a creature simulation: body plans assembled as trees of
//! rigid segments, per-segment charge bookkeeping and the reflex controller
//! that turns sensed world state into actuation intents.
//!
//! The library is generic over the scalar type `S` of the host. It stores and
//! routes scalars but never computes with them: every numeric step (outlines,
//! poses, distances, smoothing) is done by the host, which hands the library
//! the discrete outcome.
pub mod agent;
pub mod ai;
pub mod flags;
pub mod flock;
pub mod geometry;
pub mod input;
pub mod obj;
pub mod recipe;
pub mod segment;
pub mod world;
