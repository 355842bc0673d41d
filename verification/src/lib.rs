//! Narrow-phase contact generation for rigid bodies.
//!
//! Given two convex solids and where they are, the narrow phase tells whether
//! they touch and, if so, gives the pair of contact points, the normal and
//! the depth that a solver needs. This crate holds its core:
//!
//! - [`kinematic`]: the contact kinematics of a pair of solids, which gives
//!   the contact again as the solids move, without a new search for the
//!   closest features;
//! - [`simplex`]: the simplex of up to four points that finds its point
//!   closest to the origin and reduces itself to the feature that holds it;
//! - [`dispatcher`], [`generator`], [`manifold`], [`id_allocator`] and
//!   [`proximity`]: the choice of an algorithm for a pair of shapes, the
//!   contacts of a pair with identifiers that last, and the proximity of two
//!   balls.
//!
//! The crate is generic over the scalars, vectors, points and rigid
//! transformations that it computes with; see [`math`].

pub mod ball;
pub mod bounding_volume;
pub mod closest_points;
pub mod collision_detector;
pub mod cone;
pub mod contact;
pub mod dispatcher;
pub mod generator;
pub mod id_allocator;
pub mod implicit;
pub mod kinematic;
pub mod manifold;
pub mod math;
pub mod pair;
pub mod point_query;
pub mod proximity;
pub mod rigid_motion;
pub mod shape;
pub mod simplex;
pub mod triangle;
