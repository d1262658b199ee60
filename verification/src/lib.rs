//! Spatial and animation core of a small interactive renderer: a parented
//! affine transform graph, a skeletal-animation pipeline, and an axis-aligned
//! rigid-body collision resolver, all over exact fixed-point scalars.
pub mod aabb;
pub mod animation;
pub mod controls;
pub mod entity;
pub mod fx;
pub mod id_repository;
pub mod matrix;
pub mod parse;
pub mod resources;
pub mod rigid_body;
pub mod skeleton;
pub mod skinning;
pub mod transform;
pub mod trig;
pub mod vector;
